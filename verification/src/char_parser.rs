//! Decoding of raw terminal input into abstract key tokens.

use vstd::prelude::*;
use crate::min_todo::Buffer;

verus! {

/// An abstract key token.
#[derive(Debug, Clone, Copy, PartialEq, Eq, Structural)]
pub enum Character {
    Display(char),
    Esc,
    Backspace,
    Delete,
    ArrowUp,
    ArrowDown,
    ArrowLeft,
    ArrowRight,
}

/// Whether `b` is a printable ASCII byte: a graphic character or the space.
pub open spec fn is_printable(b: u8) -> bool {
    0x20 <= b <= 0x7E
}

/// The number of non-zero bytes of an input event.
pub open spec fn nonzero_count(buffer: Seq<u8>) -> nat
    recommends
        buffer.len() == 4,
{
    let one = |b: u8| if b != 0 { 1nat } else { 0nat };
    one(buffer[0]) + one(buffer[1]) + one(buffer[2]) + one(buffer[3])
}

/// The first non-zero byte of an input event, or zero if there is none.
pub open spec fn first_nonzero(buffer: Seq<u8>) -> u8
    recommends
        buffer.len() == 4,
{
    if buffer[0] != 0 {
        buffer[0]
    } else if buffer[1] != 0 {
        buffer[1]
    } else if buffer[2] != 0 {
        buffer[2]
    } else {
        buffer[3]
    }
}

/// The key that a lone byte stands for, if any.
pub open spec fn decode_single(b: u8) -> Option<Character> {
    if b == 0x1B {
        Some(Character::Esc)
    } else if b == 0x7F {
        Some(Character::Backspace)
    } else if is_printable(b) {
        Some(Character::Display(b as char))
    } else {
        None
    }
}

/// The key that an input event stands for, if any.
pub open spec fn decode(buffer: Seq<u8>) -> Option<Character>
    recommends
        buffer.len() == 4,
{
    let n = nonzero_count(buffer);
    if n == 1 {
        decode_single(first_nonzero(buffer))
    } else if n == 3 && buffer[0] == 0x1B && buffer[1] == 0x5B {
        if buffer[2] == 0x41 {
            Some(Character::ArrowUp)
        } else if buffer[2] == 0x42 {
            Some(Character::ArrowDown)
        } else if buffer[2] == 0x44 {
            Some(Character::ArrowLeft)
        } else if buffer[2] == 0x43 {
            Some(Character::ArrowRight)
        } else {
            None
        }
    } else if buffer =~= seq![0x1Bu8, 0x5Bu8, 0x33u8, 0x7Eu8] {
        Some(Character::Delete)
    } else {
        None
    }
}

/// Decodes a lone byte.
fn single(b: u8) -> (key: Option<Character>)
    ensures
        key == decode_single(b),
{
    if b == 0x1B {
        Some(Character::Esc)
    } else if b == 0x7F {
        Some(Character::Backspace)
    } else if 0x20 <= b && b <= 0x7E {
        Some(Character::Display(b as char))
    } else {
        None
    }
}

/// Decodes one input event into a key token. Input that stands for no key
/// gives `None`.
pub fn parse_char(buffer: Buffer) -> (key: Option<Character>)
    ensures
        key == decode(buffer@),
{
    let mut values: usize = 0;
    let mut first: u8 = 0;
    if buffer[3] != 0 {
        values += 1;
        first = buffer[3];
    }
    if buffer[2] != 0 {
        values += 1;
        first = buffer[2];
    }
    if buffer[1] != 0 {
        values += 1;
        first = buffer[1];
    }
    if buffer[0] != 0 {
        values += 1;
        first = buffer[0];
    }
    if values == 1 {
        single(first)
    } else if values == 3 && buffer[0] == 0x1B && buffer[1] == 0x5B {
        if buffer[2] == 0x41 {
            Some(Character::ArrowUp)
        } else if buffer[2] == 0x42 {
            Some(Character::ArrowDown)
        } else if buffer[2] == 0x44 {
            Some(Character::ArrowLeft)
        } else if buffer[2] == 0x43 {
            Some(Character::ArrowRight)
        } else {
            None
        }
    } else if buffer[0] == 0x1B && buffer[1] == 0x5B && buffer[2] == 0x33 && buffer[3] == 0x7E {
        Some(Character::Delete)
    } else {
        None
    }
}

/// An input event with a single non-zero byte, wherever it stands, decodes
/// as that byte alone does: a printable byte gives its character, the
/// escape byte `Esc` and the delete byte `Backspace`.
pub proof fn lemma_decode_single_byte(buffer: Seq<u8>, at: int)
    requires
        buffer.len() == 4,
        0 <= at < 4,
        buffer[at] != 0,
        forall|i: int| 0 <= i < 4 && i != at ==> buffer[i] == 0,
    ensures
        decode(buffer) == decode_single(buffer[at]),
        is_printable(buffer[at]) ==> decode(buffer) == Some(Character::Display(buffer[at] as char)),
        buffer[at] == 0x1B ==> decode(buffer) == Some(Character::Esc),
        buffer[at] == 0x7F ==> decode(buffer) == Some(Character::Backspace),
{
}

/// What decodes to a key at all: one byte, an arrow's three bytes with a
/// zero behind them, or the four bytes of the delete key.
pub proof fn lemma_decode_shapes(buffer: Seq<u8>)
    requires
        buffer.len() == 4,
    ensures
        decode(buffer) is Some ==> nonzero_count(buffer) == 1 || nonzero_count(buffer) == 3
            || nonzero_count(buffer) == 4,
        decode(buffer) == Some(Character::Delete) <==> buffer =~= seq![0x1Bu8, 0x5Bu8, 0x33u8, 0x7Eu8],
        decode(buffer) == Some(Character::ArrowUp) <==> buffer =~= seq![0x1Bu8, 0x5Bu8, 0x41u8, 0u8],
        decode(buffer) == Some(Character::ArrowDown) <==> buffer =~= seq![0x1Bu8, 0x5Bu8, 0x42u8, 0u8],
        decode(buffer) == Some(Character::ArrowLeft) <==> buffer =~= seq![0x1Bu8, 0x5Bu8, 0x44u8, 0u8],
        decode(buffer) == Some(Character::ArrowRight) <==> buffer =~= seq![
            0x1Bu8,
            0x5Bu8,
            0x43u8,
            0u8,
        ],
{
}

} // verus!
