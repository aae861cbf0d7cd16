//! The terminal control sequences that drawing the editor needs, as text.

use vstd::prelude::*;

verus! {

/// The control sequence introducer: the escape character and `[`.
pub open spec fn csi() -> Seq<char> {
    seq!['\u{1b}', '[']
}

/// The sequence that makes the cursor visible.
pub open spec fn show_text() -> Seq<char> {
    csi() + seq!['?', '2', '5', 'h']
}

/// The sequence that selects a steady block as the cursor's shape.
pub open spec fn steady_block_text() -> Seq<char> {
    csi() + seq!['2', ' ', 'q']
}

/// The sequence that selects a steady bar as the cursor's shape.
pub open spec fn steady_bar_text() -> Seq<char> {
    csi() + seq!['6', ' ', 'q']
}

/// The sequence that clears the whole screen.
pub open spec fn clear_all_text() -> Seq<char> {
    csi() + seq!['2', 'J']
}

/// The character of one decimal digit.
pub open spec fn digit_char(d: int) -> char
    recommends
        0 <= d < 10,
{
    seq!['0', '1', '2', '3', '4', '5', '6', '7', '8', '9'][d]
}

/// A number in decimal, without sign or padding.
pub open spec fn decimal(n: nat) -> Seq<char>
    decreases n,
{
    if n < 10 {
        seq![digit_char(n as int)]
    } else {
        decimal(n / 10).push(digit_char((n % 10) as int))
    }
}

/// The sequence that moves the cursor to column `x` of row `y`, both
/// counted from one.
pub open spec fn goto_text(x: u16, y: u16) -> Seq<char> {
    csi() + decimal(y as nat) + seq![';'] + decimal(x as nat) + seq!['H']
}

/// `termion::cursor::Show` as text: the introducer followed by `?25h`.
#[verifier::external_body]
pub(crate) fn show() -> (s: String)
    ensures
        s@ == show_text(),
{
    termion::cursor::Show.to_string()
}

/// `termion::cursor::SteadyBlock` as text: the introducer followed by `2 q`.
#[verifier::external_body]
pub(crate) fn steady_block() -> (s: String)
    ensures
        s@ == steady_block_text(),
{
    termion::cursor::SteadyBlock.to_string()
}

/// `termion::cursor::SteadyBar` as text: the introducer followed by `6 q`.
#[verifier::external_body]
pub(crate) fn steady_bar() -> (s: String)
    ensures
        s@ == steady_bar_text(),
{
    termion::cursor::SteadyBar.to_string()
}

/// `termion::clear::All` as text: the introducer followed by `2J`.
#[verifier::external_body]
pub(crate) fn clear_all() -> (s: String)
    ensures
        s@ == clear_all_text(),
{
    termion::clear::All.to_string()
}

/// `termion::cursor::Goto` as text: the introducer, the row in decimal, a
/// semicolon, the column in decimal and `H`. Its formatting rejects the
/// position (0, 0) in builds with debug assertions, so that position is
/// left out.
#[verifier::external_body]
pub(crate) fn goto(x: u16, y: u16) -> (s: String)
    requires
        x != 0 || y != 0,
    ensures
        s@ == goto_text(x, y),
{
    termion::cursor::Goto(x, y).to_string()
}

} // verus!
