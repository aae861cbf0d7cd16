//! Parsing of key tokens into editing commands, one command set per mode.

use vstd::prelude::*;
use crate::char_parser::Character;

verus! {

/// The commands of normal mode. `GoTo` and `Delete` are the first halves
/// of the two-key commands `gg` and `dd`: they wait in the parser and are
/// never handed out.
#[derive(Debug, PartialEq, Eq, Clone, Copy, Structural)]
pub enum NormalModeCommand {
    MoveDown,
    MoveUp,
    MoveLeft,
    MoveRight,
    Quit,
    MoveToBottom,
    MoveToTop,
    GoTo,
    EnterInsertMode,
    Append,
    Delete,
    DeleteLine,
    NextWord,
    PrevWord,
    ToBeg,
    ToEnd,
    DeleteChar,
    AddLineTop,
    AddLineBottom,
}

/// The commands of insert mode.
#[derive(Debug, PartialEq, Eq, Clone, Copy, Structural)]
pub enum InsertModeCommand {
    EnterNormalMode,
    Insert(char),
    Delete,
    Backspace,
    MoveDown,
    MoveUp,
    MoveLeft,
    MoveRight,
}

/// The parser's memory between keys: the halves of two-key commands typed
/// so far, and the repeat count typed so far.
#[derive(Debug)]
pub struct CommandParser {
    pub command_buffer: Vec<NormalModeCommand>,
    pub nr_prefix: Option<usize>,
}

/// What a parser holds, as plain values.
pub struct ParserState {
    pub pending: Seq<NormalModeCommand>,
    pub prefix: Option<usize>,
}

impl View for CommandParser {
    type V = ParserState;

    open spec fn view(&self) -> ParserState {
        ParserState { pending: self.command_buffer@, prefix: self.nr_prefix }
    }
}

/// Whether `c` is one of the ten decimal digits.
pub open spec fn is_digit(c: char) -> bool {
    '0' <= c <= '9'
}

/// The value of a decimal digit.
pub open spec fn digit_value(c: char) -> int
    recommends
        is_digit(c),
{
    c as int - '0' as int
}

/// Whether `c` can be typed into a line: a graphic ASCII character or the
/// space.
pub open spec fn is_text(c: char) -> bool {
    ' ' <= c <= '~'
}

/// A repeat count after one more digit. A zero does not start a count;
/// after that each digit is appended in decimal. A count that a `usize`
/// cannot hold stays at the largest one.
pub open spec fn with_digit(prefix: Option<usize>, digit: int) -> Option<usize>
    recommends
        0 <= digit <= 9,
{
    match prefix {
        Some(prev) => if prev * 10 + digit <= usize::MAX {
            Some((prev * 10 + digit) as usize)
        } else {
            Some(usize::MAX)
        },
        None => if digit != 0 {
            Some(digit as usize)
        } else {
            None
        },
    }
}

/// The command that a key stands for in insert mode, if any.
pub open spec fn insert_command(key: Character) -> Option<InsertModeCommand> {
    match key {
        Character::Esc => Some(InsertModeCommand::EnterNormalMode),
        Character::Backspace => Some(InsertModeCommand::Backspace),
        Character::Delete => Some(InsertModeCommand::Delete),
        Character::ArrowUp => Some(InsertModeCommand::MoveUp),
        Character::ArrowDown => Some(InsertModeCommand::MoveDown),
        Character::ArrowLeft => Some(InsertModeCommand::MoveLeft),
        Character::ArrowRight => Some(InsertModeCommand::MoveRight),
        Character::Display(c) => if is_text(c) {
            Some(InsertModeCommand::Insert(c))
        } else {
            None
        },
    }
}

impl ParserState {
    /// A parser that has seen no key.
    pub open spec fn initial() -> ParserState {
        ParserState { pending: Seq::empty(), prefix: None }
    }

    /// Whether exactly `half` is waiting for its second key.
    pub open spec fn awaits(self, half: NormalModeCommand) -> bool {
        self.pending =~= seq![half]
    }

    /// The command that a key completes in normal mode, if any.
    pub open spec fn normal_command(self, key: Character) -> Option<NormalModeCommand> {
        match key {
            Character::ArrowDown => Some(NormalModeCommand::MoveDown),
            Character::ArrowUp => Some(NormalModeCommand::MoveUp),
            Character::ArrowLeft => Some(NormalModeCommand::MoveLeft),
            Character::ArrowRight => Some(NormalModeCommand::MoveRight),
            Character::Display(c) => if c == '\u{3}' || c == 'q' {
                Some(NormalModeCommand::Quit)
            } else if c == 'j' {
                Some(NormalModeCommand::MoveDown)
            } else if c == 'k' {
                Some(NormalModeCommand::MoveUp)
            } else if c == 'h' {
                Some(NormalModeCommand::MoveLeft)
            } else if c == 'l' {
                Some(NormalModeCommand::MoveRight)
            } else if c == 'G' {
                Some(NormalModeCommand::MoveToBottom)
            } else if c == 'g' && self.awaits(NormalModeCommand::GoTo) {
                Some(NormalModeCommand::MoveToTop)
            } else if c == 'd' && self.awaits(NormalModeCommand::Delete) {
                Some(NormalModeCommand::DeleteLine)
            } else if c == 'i' {
                Some(NormalModeCommand::EnterInsertMode)
            } else if c == 'a' {
                Some(NormalModeCommand::Append)
            } else {
                None
            },
            _ => None,
        }
    }

    /// The parser after a key in normal mode. Escape and a completed
    /// two-key command empty the waiting halves; a first `g` or `d` is added
    /// to them; a digit extends the repeat count. Nothing else changes.
    pub open spec fn after_normal(self, key: Character) -> ParserState {
        match key {
            Character::Esc => ParserState { pending: Seq::empty(), ..self },
            Character::Display(c) => if c == 'g' {
                if self.awaits(NormalModeCommand::GoTo) {
                    ParserState { pending: Seq::empty(), ..self }
                } else {
                    ParserState { pending: self.pending.push(NormalModeCommand::GoTo), ..self }
                }
            } else if c == 'd' {
                if self.awaits(NormalModeCommand::Delete) {
                    ParserState { pending: Seq::empty(), ..self }
                } else {
                    ParserState { pending: self.pending.push(NormalModeCommand::Delete), ..self }
                }
            } else if is_digit(c) {
                ParserState { prefix: with_digit(self.prefix, digit_value(c)), ..self }
            } else {
                self
            },
            _ => self,
        }
    }
}

impl CommandParser {
    /// A parser with nothing waiting and no repeat count.
    pub fn new() -> (parser: CommandParser)
        ensures
            parser@ == ParserState::initial(),
    {
        CommandParser { command_buffer: Vec::new(), nr_prefix: None }
    }

    /// Takes one digit into the repeat count.
    fn handle_number_prefix(&mut self, c: char)
        requires
            is_digit(c),
        ensures
            final(self)@ == (ParserState {
                prefix: with_digit(old(self)@.prefix, digit_value(c)),
                ..old(self)@
            }),
    {
        let nr: usize = (c as u32 - '0' as u32) as usize;
        match self.nr_prefix {
            Some(prev) => {
                if prev <= (usize::MAX - nr) / 10 {
                    self.nr_prefix = Some(prev * 10 + nr);
                } else {
                    self.nr_prefix = Some(usize::MAX);
                }
            },
            None => {
                if nr != 0 {
                    self.nr_prefix = Some(nr);
                }
            },
        }
    }

    /// Whether exactly `half` is waiting for its second key.
    fn awaits(&self, half: NormalModeCommand) -> (b: bool)
        ensures
            b == self@.awaits(half),
    {
        self.command_buffer.len() == 1 && self.command_buffer[0] == half
    }

    /// The command of insert mode that `c` stands for, if any. The parser
    /// keeps no memory in insert mode.
    pub fn parse_insert_mode_command(&self, c: Character) -> (command: Option<InsertModeCommand>)
        ensures
            command == insert_command(c),
    {
        match c {
            Character::Esc => Some(InsertModeCommand::EnterNormalMode),
            Character::Backspace => Some(InsertModeCommand::Backspace),
            Character::Display(c) => {
                if ' ' <= c && c <= '~' {
                    Some(InsertModeCommand::Insert(c))
                } else {
                    None
                }
            },
            Character::ArrowUp => Some(InsertModeCommand::MoveUp),
            Character::ArrowDown => Some(InsertModeCommand::MoveDown),
            Character::ArrowLeft => Some(InsertModeCommand::MoveLeft),
            Character::ArrowRight => Some(InsertModeCommand::MoveRight),
            Character::Delete => Some(InsertModeCommand::Delete),
        }
    }

    /// Takes one key in normal mode: hands out the command that it
    /// completes, if any, and remembers what a later key may need.
    pub fn parse_command(&mut self, c: Character) -> (command: Option<NormalModeCommand>)
        ensures
            command == old(self)@.normal_command(c),
            final(self)@ == old(self)@.after_normal(c),
    {
        match c {
            Character::Esc => {
                self.command_buffer.clear();
                None
            },
            Character::ArrowDown => Some(NormalModeCommand::MoveDown),
            Character::ArrowUp => Some(NormalModeCommand::MoveUp),
            Character::ArrowLeft => Some(NormalModeCommand::MoveLeft),
            Character::ArrowRight => Some(NormalModeCommand::MoveRight),
            Character::Display(ch) => {
                if ch == '\u{3}' || ch == 'q' {
                    Some(NormalModeCommand::Quit)
                } else if ch == 'j' {
                    Some(NormalModeCommand::MoveDown)
                } else if ch == 'k' {
                    Some(NormalModeCommand::MoveUp)
                } else if ch == 'h' {
                    Some(NormalModeCommand::MoveLeft)
                } else if ch == 'l' {
                    Some(NormalModeCommand::MoveRight)
                } else if ch == 'G' {
                    Some(NormalModeCommand::MoveToBottom)
                } else if ch == 'g' {
                    if self.awaits(NormalModeCommand::GoTo) {
                        self.command_buffer.clear();
                        Some(NormalModeCommand::MoveToTop)
                    } else {
                        self.command_buffer.push(NormalModeCommand::GoTo);
                        None
                    }
                } else if '0' <= ch && ch <= '9' {
                    self.handle_number_prefix(ch);
                    None
                } else if ch == 'i' {
                    Some(NormalModeCommand::EnterInsertMode)
                } else if ch == 'a' {
                    Some(NormalModeCommand::Append)
                } else if ch == 'd' {
                    if self.awaits(NormalModeCommand::Delete) {
                        self.command_buffer.clear();
                        Some(NormalModeCommand::DeleteLine)
                    } else {
                        self.command_buffer.push(NormalModeCommand::Delete);
                        None
                    }
                } else {
                    None
                }
            },
            _ => None,
        }
    }

    /// The repeat count typed so far, if any.
    pub fn nr_prefix(&self) -> (prefix: Option<usize>)
        ensures
            prefix == self@.prefix,
    {
        self.nr_prefix
    }

    /// Replaces the repeat count.
    pub fn set_nr_prefix(&mut self, prefix: Option<usize>)
        ensures
            final(self)@ == (ParserState { prefix: prefix, ..old(self)@ }),
    {
        self.nr_prefix = prefix;
    }

    /// Forgets the repeat count.
    pub fn clear_nr_prefix(&mut self)
        ensures
            final(self)@ == (ParserState { prefix: None, ..old(self)@ }),
    {
        self.nr_prefix = None;
    }
}

/// The two-key commands. With nothing waiting, a first `g` gives no
/// command and waits; a second `g` gives `MoveToTop` and leaves nothing
/// waiting. The same holds of `d` and `DeleteLine`. The repeat count is
/// untouched.
pub proof fn lemma_two_key_commands(parser: ParserState)
    requires
        parser.pending.len() == 0,
    ensures
        parser.normal_command(Character::Display('g')) is None,
        parser.after_normal(Character::Display('g')).normal_command(Character::Display('g'))
            == Some(NormalModeCommand::MoveToTop),
        parser.after_normal(Character::Display('g')).after_normal(Character::Display('g'))
            == parser,
        parser.normal_command(Character::Display('d')) is None,
        parser.after_normal(Character::Display('d')).normal_command(Character::Display('d'))
            == Some(NormalModeCommand::DeleteLine),
        parser.after_normal(Character::Display('d')).after_normal(Character::Display('d'))
            == parser,
{
    let g = NormalModeCommand::GoTo;
    let d = NormalModeCommand::Delete;
    assert(parser.pending =~= Seq::empty());
    assert(parser.pending.push(g) =~= seq![g]);
    assert(parser.pending.push(d) =~= seq![d]);
}

/// A digit between the two keys of a two-key command does not break it
/// off: the second key still completes the command.
pub proof fn lemma_digit_between_keys(parser: ParserState, digit: char)
    requires
        parser.pending.len() == 0,
        is_digit(digit),
    ensures
        parser.after_normal(Character::Display('g')).after_normal(
            Character::Display(digit),
        ).normal_command(Character::Display('g')) == Some(NormalModeCommand::MoveToTop),
        parser.after_normal(Character::Display('d')).after_normal(
            Character::Display(digit),
        ).normal_command(Character::Display('d')) == Some(NormalModeCommand::DeleteLine),
{
    assert(parser.pending.push(NormalModeCommand::GoTo) =~= seq![NormalModeCommand::GoTo]);
    assert(parser.pending.push(NormalModeCommand::Delete) =~= seq![NormalModeCommand::Delete]);
}

/// Escape leaves nothing waiting and gives no command.
pub proof fn lemma_escape_clears(parser: ParserState)
    ensures
        parser.normal_command(Character::Esc) is None,
        parser.after_normal(Character::Esc).pending.len() == 0,
        parser.after_normal(Character::Esc).prefix == parser.prefix,
{
}

/// How digits build the repeat count. A digit gives no command and
/// leaves the waiting halves alone. Without a count a zero starts none and
/// any other digit starts the count with its value; a count `n` becomes
/// `10 * n` plus the digit, where a `usize` holds that. Digits never make
/// a count of zero.
pub proof fn lemma_digits(parser: ParserState, digit: char)
    requires
        is_digit(digit),
    ensures
        0 <= digit_value(digit) <= 9,
        parser.normal_command(Character::Display(digit)) is None,
        parser.after_normal(Character::Display(digit)).pending == parser.pending,
        parser.prefix is None && digit == '0' ==> parser.after_normal(
            Character::Display(digit),
        ).prefix is None,
        parser.prefix is None && digit != '0' ==> parser.after_normal(
            Character::Display(digit),
        ).prefix == Some(digit_value(digit) as usize),
        parser.prefix matches Some(n) ==> (10 * n + digit_value(digit) <= usize::MAX
            ==> parser.after_normal(Character::Display(digit)).prefix == Some(
            (10 * n + digit_value(digit)) as usize,
        )),
        parser.prefix != Some(0usize) ==> parser.after_normal(Character::Display(digit)).prefix
            != Some(0usize),
{
}

} // verus!
