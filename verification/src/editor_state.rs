//! The editor as a mathematical state machine: the state as plain values
//! and, for each command, the state that follows.

use vstd::prelude::*;
use crate::ansi;
use crate::char_parser::{decode, Character};
use crate::command_parser::{insert_command, InsertModeCommand, NormalModeCommand, ParserState};
use crate::cursor::{cursor_text, shifted, Cursor};
use crate::min_todo::InputMode;
use crate::words::{lemma_next_boundary, lemma_prev_stop, next_boundary, prev_stop};

verus! {

/// The row at which moving up starts to scroll.
pub open spec fn scroll_up_row() -> int {
    5
}

/// How often a command is repeated: the repeat count, at least once.
pub open spec fn repeat_count(prefix: Option<usize>) -> int {
    match prefix {
        Some(n) => if n >= 1 {
            n as int
        } else {
            1
        },
        None => 1,
    }
}

/// `count` empty lines.
pub open spec fn empty_lines(count: int) -> Seq<Seq<char>> {
    Seq::new(count as nat, |i: int| Seq::<char>::empty())
}

/// A line without the `count` characters from column `x` on, or without
/// as many of them as it has.
pub open spec fn without_chars(line: Seq<char>, x: int, count: int) -> Seq<char> {
    if 0 <= x < line.len() && count >= 0 {
        if x + count < line.len() {
            line.subrange(0, x) + line.subrange(x + count, line.len() as int)
        } else {
            line.subrange(0, x)
        }
    } else {
        line
    }
}

/// The text that draws one line: a line feed, a carriage return and the
/// characters of the line.
pub open spec fn line_text(line: Seq<char>) -> Seq<char> {
    seq!['\n', '\r'] + line
}

/// The text that draws some lines, one after the other.
pub open spec fn lines_text(lines: Seq<Seq<char>>) -> Seq<char>
    decreases lines.len(),
{
    if lines.len() == 0 {
        Seq::empty()
    } else {
        lines_text(lines.drop_last()) + line_text(lines.last())
    }
}

/// The text that clears the screen and puts the cursor in its upper left
/// corner.
pub open spec fn clear_text() -> Seq<char> {
    ansi::goto_text(1, 1) + ansi::clear_all_text()
}

/// The state of the editor as plain values.
///
/// `x` and `y` are the cursor's column and its row within the viewport,
/// `scroll_beg` is the number of the line in the viewport's first row and
/// `term_rows` the height of the viewport.
pub struct EditorState {
    pub lines: Seq<Seq<char>>,
    pub x: int,
    pub y: int,
    pub scroll_beg: int,
    pub term_rows: int,
    pub mode: InputMode,
    pub changed: bool,
    pub parser: ParserState,
}

impl EditorState {
    /// The state of a new editor for a terminal of `term_rows` rows.
    pub open spec fn initial(term_rows: int) -> EditorState {
        EditorState {
            lines: Seq::empty(),
            x: 0,
            y: 0,
            scroll_beg: 0,
            term_rows: term_rows,
            mode: InputMode::Normal,
            changed: true,
            parser: ParserState::initial(),
        }
    }

    /// The number of lines of the document.
    pub open spec fn len(self) -> int {
        self.lines.len() as int
    }

    /// The number of the line that the cursor is on.
    pub open spec fn curr_line_nr(self) -> int {
        self.scroll_beg + self.y
    }

    /// Whether the cursor is on a line of the document. In a valid state
    /// it is unless the document is empty.
    pub open spec fn has_line(self) -> bool {
        0 <= self.curr_line_nr() < self.len()
    }

    /// The line that the cursor is on; the empty line if it is on none.
    pub open spec fn curr_line(self) -> Seq<char> {
        if self.has_line() {
            self.lines[self.curr_line_nr()]
        } else {
            Seq::empty()
        }
    }

    /// The length of the line that the cursor is on.
    pub open spec fn curr_line_len(self) -> int {
        self.curr_line().len() as int
    }

    /// The row from which on moving down scrolls.
    pub open spec fn scroll_down_row(self) -> int {
        if self.term_rows >= 5 {
            self.term_rows - 5
        } else {
            0
        }
    }

    /// The number of the first line below the viewport.
    pub open spec fn scroll_end(self) -> int {
        self.scroll_beg + self.term_rows
    }

    /// The number of the first line that is not drawn: the end of the
    /// viewport or of the document, whichever comes first.
    pub open spec fn visible_end(self) -> int {
        if self.scroll_end() < self.len() {
            self.scroll_end()
        } else {
            self.len()
        }
    }

    /// The lines that are drawn.
    pub open spec fn visible_lines(self) -> Seq<Seq<char>> {
        self.lines.subrange(self.scroll_beg, self.visible_end())
    }

    /// The text that draws the editor: the screen is cleared, the visible
    /// lines follow, and the cursor is placed.
    pub open spec fn frame(self) -> Seq<char> {
        clear_text() + lines_text(self.visible_lines()) + cursor_text(
            Cursor { x: self.x as usize, y: self.y as usize },
            self.mode,
        )
    }

    /// Validity: the viewport has a row, the cursor is in the viewport and
    /// on a line of the document, or on line zero of an empty document.
    pub open spec fn wf(self) -> bool {
        &&& self.term_rows >= 1
        &&& 0 <= self.x
        &&& 0 <= self.y < self.term_rows
        &&& 0 <= self.scroll_beg
        &&& self.curr_line_nr() < self.len() || self.curr_line_nr() == 0
    }

    /// The state with the cursor in column `x`.
    pub open spec fn with_x(self, x: int) -> EditorState {
        EditorState { x: x, ..self }
    }

    /// The state with `line` in place of the line that the cursor is on.
    pub open spec fn with_curr_line(self, line: Seq<char>) -> EditorState {
        EditorState { lines: self.lines.update(self.curr_line_nr(), line), ..self }
    }

    /// The state without a repeat count.
    pub open spec fn consume_prefix(self) -> EditorState {
        EditorState { parser: ParserState { prefix: None, ..self.parser }, ..self }
    }

    /// One line down. From the scroll-down row on the viewport scrolls
    /// while lines are left below it; else the cursor moves, but not past
    /// the last line.
    pub open spec fn move_down(self) -> EditorState {
        if self.y >= self.scroll_down_row() && self.scroll_end() < self.len() {
            EditorState { scroll_beg: self.scroll_beg + 1, ..self }
        } else if self.curr_line_nr() + 1 < self.len() {
            EditorState { y: self.y + 1, ..self }
        } else {
            self
        }
    }

    /// One line up. In the scroll-up row and in the first row the viewport
    /// scrolls while lines are left above it; else the cursor moves, but
    /// not above the first row.
    pub open spec fn move_up(self) -> EditorState {
        if (self.y == scroll_up_row() || self.y == 0) && self.scroll_beg > 0 {
            EditorState { scroll_beg: self.scroll_beg - 1, ..self }
        } else if self.y > 0 {
            EditorState { y: self.y - 1, ..self }
        } else {
            self
        }
    }

    /// To the first line.
    pub open spec fn move_to_top(self) -> EditorState {
        EditorState { scroll_beg: 0, y: 0, ..self }
    }

    /// To the last line: the viewport ends with the document and the cursor
    /// is in its last row. Where the document is shorter than the viewport,
    /// the viewport starts with the document and the cursor is on the last
    /// line.
    pub open spec fn move_to_bottom(self) -> EditorState {
        if self.len() >= self.term_rows {
            EditorState { scroll_beg: self.len() - self.term_rows, y: self.term_rows - 1, ..self }
        } else if self.len() >= 1 {
            EditorState { scroll_beg: 0, y: self.len() - 1, ..self }
        } else {
            EditorState { scroll_beg: 0, y: 0, ..self }
        }
    }

    /// To line `line`, counted from zero as every line number is: it
    /// becomes the first line of the viewport, with the cursor on it. A
    /// `line` at or behind the last line leads to the bottom.
    pub open spec fn move_to_line(self, line: int) -> EditorState {
        if line + 1 >= self.len() {
            self.move_to_bottom()
        } else if line >= 0 {
            EditorState { scroll_beg: line, y: 0, ..self }
        } else {
            EditorState { scroll_beg: 0, y: 0, ..self }
        }
    }

    /// The cursor brought back onto the line: no further right than the
    /// last character, and in column zero of an empty line.
    pub open spec fn align_cursor(self) -> EditorState {
        let last = if self.curr_line_len() >= 1 {
            self.curr_line_len() - 1
        } else {
            0
        };
        if last < self.x {
            self.with_x(last)
        } else {
            self
        }
    }

    /// Without up to `count` lines from the cursor's line on. A cursor
    /// left behind the last line moves up onto it.
    pub open spec fn delete_lines(self, count: int) -> EditorState {
        if !self.has_line() || count < 1 {
            self
        } else {
            let at = self.curr_line_nr();
            let rest = if at + count < self.len() {
                self.lines.subrange(at + count, self.len())
            } else {
                Seq::empty()
            };
            let lines = self.lines.subrange(0, at) + rest;
            if at < lines.len() || at == 0 {
                EditorState { lines: lines, ..self }
            } else if self.y > 0 {
                EditorState { lines: lines, y: self.y - 1, ..self }
            } else {
                EditorState { lines: lines, scroll_beg: self.scroll_beg - 1, ..self }
            }
        }
    }

    /// With `count` empty lines before the cursor's line. The cursor keeps
    /// its place and so stands on the first of them.
    pub open spec fn add_lines_top(self, count: int) -> EditorState {
        if 0 <= self.curr_line_nr() <= self.len() && count >= 1 {
            let at = self.curr_line_nr();
            EditorState {
                lines: self.lines.subrange(0, at) + empty_lines(count) + self.lines.subrange(
                    at,
                    self.len(),
                ),
                ..self
            }
        } else {
            self
        }
    }

    /// With one empty line behind the cursor's line, and the cursor moved
    /// down onto it.
    pub open spec fn add_line_below(self) -> EditorState {
        if self.has_line() {
            EditorState {
                lines: self.lines.insert(self.curr_line_nr() + 1, Seq::empty()),
                ..self
            }.move_down()
        } else {
            self
        }
    }

    /// `count` times a line added below.
    pub open spec fn add_lines_bottom(self, count: int) -> EditorState
        decreases count,
    {
        if count <= 0 {
            self
        } else {
            self.add_line_below().add_lines_bottom(count - 1)
        }
    }

    /// To the start of the next word: the column behind the next boundary
    /// character at or after the cursor. Where that column is the last of
    /// the line or behind it, the cursor goes one line down, to column
    /// zero. Where no boundary character follows, the cursor stays.
    pub open spec fn next_word(self) -> EditorState {
        let line = self.curr_line();
        let at = next_boundary(line, self.x);
        if at >= line.len() {
            self
        } else if at + 1 >= line.len() - 1 {
            self.move_down().with_x(0)
        } else {
            self.with_x(at + 1)
        }
    }

    /// `count` times to the start of the next word.
    pub open spec fn next_words(self, count: int) -> EditorState
        decreases count,
    {
        if count <= 0 {
            self
        } else {
            self.next_word().next_words(count - 1)
        }
    }

    /// The state from which the backward scan starts: from column zero of
    /// a line that is not the first, the cursor first goes to the last
    /// column of the line above.
    pub open spec fn before_prev_word(self) -> EditorState {
        if self.x == 0 && self.curr_line_nr() != 0 {
            let up = self.move_up();
            up.with_x(
                if up.curr_line_len() >= 1 {
                    up.curr_line_len() - 1
                } else {
                    0
                },
            )
        } else {
            self
        }
    }

    /// To the start of the previous word: the column behind the last
    /// boundary character that stands at least two columns before the
    /// cursor, or column zero if there is none.
    pub open spec fn prev_word(self) -> EditorState {
        if self.has_line() {
            let start = self.before_prev_word();
            let line = start.curr_line();
            let from = if start.x < line.len() {
                start.x
            } else {
                line.len() as int
            };
            start.with_x(prev_stop(line, from - 1))
        } else {
            self
        }
    }

    /// `count` times to the start of the previous word.
    pub open spec fn prev_words(self, count: int) -> EditorState
        decreases count,
    {
        if count <= 0 {
            self
        } else {
            self.prev_word().prev_words(count - 1)
        }
    }

    /// Without up to `count` characters from the cursor on.
    pub open spec fn delete_chars(self, count: int) -> EditorState {
        if self.has_line() && self.x < self.curr_line_len() {
            self.with_curr_line(without_chars(self.curr_line(), self.x, count))
        } else {
            self
        }
    }

    /// What a command of normal mode does by itself, before the cursor is
    /// brought back onto its line.
    pub open spec fn normal_effect(self, command: NormalModeCommand) -> EditorState {
        let count = repeat_count(self.parser.prefix);
        match command {
            NormalModeCommand::Quit => self,
            NormalModeCommand::MoveDown => self.move_down(),
            NormalModeCommand::MoveUp => self.move_up(),
            NormalModeCommand::MoveLeft => self.with_x(shifted(self.x, -1)),
            NormalModeCommand::MoveRight => self.with_x(shifted(self.x, 1)),
            NormalModeCommand::MoveToBottom => match self.parser.prefix {
                Some(line) => self.move_to_line(line as int).consume_prefix(),
                None => self.move_to_bottom(),
            },
            NormalModeCommand::MoveToTop => match self.parser.prefix {
                Some(line) => self.move_to_line(line as int).consume_prefix(),
                None => self.move_to_top(),
            },
            NormalModeCommand::EnterInsertMode => EditorState {
                mode: InputMode::Insert,
                changed: true,
                ..self
            },
            NormalModeCommand::Append => EditorState {
                mode: InputMode::Insert,
                changed: true,
                x: shifted(self.x, 1),
                ..self
            },
            NormalModeCommand::DeleteLine => self.delete_lines(count).consume_prefix(),
            NormalModeCommand::AddLineBottom => self.add_lines_bottom(count).consume_prefix(),
            NormalModeCommand::AddLineTop => self.add_lines_top(count).consume_prefix(),
            NormalModeCommand::NextWord => self.next_words(count).consume_prefix(),
            NormalModeCommand::PrevWord => self.prev_words(count).consume_prefix(),
            NormalModeCommand::ToBeg => self.with_x(0),
            NormalModeCommand::ToEnd => self.with_x(self.curr_line_len()),
            NormalModeCommand::DeleteChar => self.delete_chars(count).consume_prefix(),
            NormalModeCommand::GoTo => self,
            NormalModeCommand::Delete => self,
        }
    }

    /// The state after a command of normal mode: the command takes its
    /// effect and the cursor is brought back onto its line. `Quit` leaves
    /// the state as it is.
    pub open spec fn apply_normal(self, command: NormalModeCommand) -> EditorState {
        if command == NormalModeCommand::Quit {
            self
        } else {
            self.normal_effect(command).align_cursor()
        }
    }

    /// The state after a command of insert mode.
    pub open spec fn apply_insert(self, command: InsertModeCommand) -> EditorState {
        match command {
            InsertModeCommand::EnterNormalMode => EditorState {
                mode: InputMode::Normal,
                changed: true,
                x: shifted(self.x, -1),
                ..self
            },
            InsertModeCommand::Backspace => if self.has_line() && 1 <= self.x
                <= self.curr_line_len() {
                self.with_curr_line(self.curr_line().remove(self.x - 1)).with_x(self.x - 1)
            } else {
                self
            },
            InsertModeCommand::Delete => if self.has_line() && self.x < self.curr_line_len() {
                self.with_curr_line(self.curr_line().remove(self.x))
            } else {
                self
            },
            InsertModeCommand::MoveUp => self.move_up(),
            InsertModeCommand::MoveDown => self.move_down(),
            InsertModeCommand::MoveLeft => self.with_x(shifted(self.x, -1)),
            InsertModeCommand::MoveRight => self.with_x(shifted(self.x, 1)),
            InsertModeCommand::Insert(c) => if self.has_line() && self.x <= self.curr_line_len() {
                self.with_curr_line(self.curr_line().insert(self.x, c)).with_x(shifted(self.x, 1))
            } else {
                self
            },
        }
    }

    /// Whether `key` ends the session: in normal mode, a key that
    /// completes `Quit`.
    pub open spec fn quits(self, key: Option<Character>) -> bool {
        &&& self.mode == InputMode::Normal
        &&& key matches Some(k)
        &&& self.parser.normal_command(k) == Some(NormalModeCommand::Quit)
    }

    /// The state after a key: the key is parsed in the current mode and
    /// the command that it completes, if any, is applied.
    pub open spec fn handle_key(self, key: Option<Character>) -> EditorState {
        match key {
            None => self,
            Some(k) => match self.mode {
                InputMode::Normal => {
                    let parsed = EditorState { parser: self.parser.after_normal(k), ..self };
                    match self.parser.normal_command(k) {
                        Some(command) => parsed.apply_normal(command),
                        None => parsed,
                    }
                },
                InputMode::Insert => match insert_command(k) {
                    Some(command) => self.apply_insert(command),
                    None => self,
                },
            },
        }
    }

    /// The state after one input event: the event is decoded and handled;
    /// unless it ends the session, the cursor is brought back onto its line
    /// and the editor is marked for drawing.
    pub open spec fn update(self, buffer: Seq<u8>) -> EditorState {
        let key = decode(buffer);
        if self.quits(key) {
            self.handle_key(key)
        } else {
            EditorState { changed: true, ..self.handle_key(key).align_cursor() }
        }
    }
}

/// Adding lines below changes nothing where the cursor is on no line.
pub proof fn lemma_add_lines_bottom_without_line(state: EditorState, count: int)
    requires
        !state.has_line(),
    ensures
        state.add_lines_bottom(count) == state,
    decreases count,
{
    if count > 0 {
        lemma_add_lines_bottom_without_line(state, count - 1);
    }
}

/// Adding `count` lines below the cursor's line puts `count` empty lines
/// behind that line and the cursor on the last of them; the viewport still
/// holds the cursor.
pub proof fn lemma_add_lines_bottom(state: EditorState, count: int)
    requires
        state.wf(),
        state.has_line(),
        count >= 0,
    ensures
        state.add_lines_bottom(count).wf(),
        state.add_lines_bottom(count).lines =~= state.lines.subrange(0, state.curr_line_nr() + 1)
            + empty_lines(count) + state.lines.subrange(state.curr_line_nr() + 1, state.len()),
        state.add_lines_bottom(count).curr_line_nr() == state.curr_line_nr() + count,
        state.add_lines_bottom(count).x == state.x,
    decreases count,
{
    if count > 0 {
        let next = state.add_line_below();
        lemma_add_lines_bottom(next, count - 1);
    }
}

/// The word motions keep a valid state valid.
pub proof fn lemma_word_motions_wf(state: EditorState, count: int)
    requires
        state.wf(),
    ensures
        state.next_words(count).wf(),
        state.prev_words(count).wf(),
    decreases count,
{
    if count > 0 {
        let start = state.before_prev_word();
        let line = start.curr_line();
        if start.x < line.len() {
            lemma_prev_stop(line, start.x - 1);
        } else {
            lemma_prev_stop(line, line.len() - 1);
        }
        if 0 <= state.x <= state.curr_line_len() {
            lemma_next_boundary(state.curr_line(), state.x);
        }
        lemma_word_motions_wf(state.next_word(), count - 1);
        lemma_word_motions_wf(state.prev_word(), count - 1);
    }
}

/// Every command of normal mode keeps a valid state valid: the cursor
/// stays in the viewport and on a line of the document. After every
/// command but `Quit` the cursor is on a character of its line, or in
/// column zero of an empty line.
pub proof fn lemma_apply_normal_wf(state: EditorState, command: NormalModeCommand)
    requires
        state.wf(),
    ensures
        state.apply_normal(command).wf(),
        command != NormalModeCommand::Quit ==> state.apply_normal(command).x
            < state.apply_normal(command).curr_line_len() || state.apply_normal(command).x == 0,
{
    lemma_normal_effect_wf(state, command);
}

/// The effect of every command of normal mode keeps a valid state valid.
pub proof fn lemma_normal_effect_wf(state: EditorState, command: NormalModeCommand)
    requires
        state.wf(),
    ensures
        state.normal_effect(command).wf(),
{
    let count = repeat_count(state.parser.prefix);
    match command {
        NormalModeCommand::MoveToBottom | NormalModeCommand::MoveToTop => {
            lemma_jumps_wf(state);
        },
        NormalModeCommand::DeleteLine => {
            lemma_delete_lines_wf(state, count);
        },
        NormalModeCommand::AddLineBottom => {
            if state.has_line() {
                lemma_add_lines_bottom(state, count);
            } else {
                lemma_add_lines_bottom_without_line(state, count);
            }
        },
        NormalModeCommand::NextWord | NormalModeCommand::PrevWord => {
            lemma_word_motions_wf(state, count);
        },
        _ => {},
    }
}

/// The jumps keep a valid state valid.
pub proof fn lemma_jumps_wf(state: EditorState)
    requires
        state.wf(),
    ensures
        state.move_to_top().wf(),
        state.move_to_bottom().wf(),
        forall|line: int| (#[trigger] state.move_to_line(line)).wf(),
{
}

/// Deleting lines keeps a valid state valid.
pub proof fn lemma_delete_lines_wf(state: EditorState, count: int)
    requires
        state.wf(),
    ensures
        state.delete_lines(count).wf(),
{
}

/// Every command of insert mode keeps a valid state valid.
pub proof fn lemma_apply_insert_wf(state: EditorState, command: InsertModeCommand)
    requires
        state.wf(),
    ensures
        state.apply_insert(command).wf(),
{
}

/// After an input event that does not end the session the state is valid,
/// marked for drawing, and the cursor is on a character of its line, or in
/// column zero of an empty line.
pub proof fn lemma_update_aligns(state: EditorState, buffer: Seq<u8>)
    requires
        state.wf(),
        !state.quits(decode(buffer)),
    ensures
        state.update(buffer).wf(),
        state.update(buffer).changed,
        state.update(buffer).x < state.update(buffer).curr_line_len() || state.update(buffer).x
            == 0,
{
    match decode(buffer) {
        Some(key) => {
            match state.mode {
                InputMode::Normal => {
                    let parsed = EditorState { parser: state.parser.after_normal(key), ..state };
                    match state.parser.normal_command(key) {
                        Some(command) => lemma_apply_normal_wf(parsed, command),
                        None => {},
                    }
                },
                InputMode::Insert => {
                    match insert_command(key) {
                        Some(command) => lemma_apply_insert_wf(state, command),
                        None => {},
                    }
                },
            }
        },
        None => {},
    }
}

/// Going to the start of the line twice is the same as going there once:
/// the cursor is in column zero.
pub proof fn lemma_to_beg_twice(state: EditorState)
    ensures
        state.apply_normal(NormalModeCommand::ToBeg).apply_normal(NormalModeCommand::ToBeg)
            == state.apply_normal(NormalModeCommand::ToBeg),
        state.apply_normal(NormalModeCommand::ToBeg).apply_normal(NormalModeCommand::ToBeg).x == 0,
{
}

/// After going to the top twice the viewport starts with the document,
/// whatever the repeat count was.
pub proof fn lemma_move_to_top_twice(state: EditorState)
    ensures
        state.apply_normal(NormalModeCommand::MoveToTop).apply_normal(
            NormalModeCommand::MoveToTop,
        ).scroll_beg == 0,
        state.apply_normal(NormalModeCommand::MoveToTop).apply_normal(
            NormalModeCommand::MoveToTop,
        ).y == 0,
{
}

/// A jump with a repeat count puts the line of that number, counted from
/// zero, into the first row of the viewport with the cursor on it, and
/// uses the count up. A number at or behind the last line leads to the
/// bottom instead.
pub proof fn lemma_jump_to_counted_line(state: EditorState, line: usize, to_top: bool)
    requires
        state.parser.prefix == Some(line),
    ensures
        ({
            let command = if to_top {
                NormalModeCommand::MoveToTop
            } else {
                NormalModeCommand::MoveToBottom
            };
            let after = state.apply_normal(command);
            &&& after.parser.prefix is None
            &&& after.lines == state.lines
            &&& line + 1 < state.len() ==> after.scroll_beg == line && after.y == 0
                && after.curr_line_nr() == line
            &&& line + 1 >= state.len() ==> after.scroll_beg == state.move_to_bottom().scroll_beg
                && after.y == state.move_to_bottom().y
        }),
{
}

/// Moving down never leads past the last line of the document, and on the
/// last line it changes nothing.
pub proof fn lemma_move_down_bounded(state: EditorState)
    requires
        state.wf(),
        state.len() >= 1,
    ensures
        state.move_down().wf(),
        state.move_down().curr_line_nr() <= state.len() - 1,
        state.curr_line_nr() == state.len() - 1 ==> state.move_down() == state,
        state.apply_normal(NormalModeCommand::MoveDown) == state.move_down().align_cursor(),
        state.apply_normal(NormalModeCommand::MoveDown).curr_line_nr() <= state.len() - 1,
        state.apply_insert(InsertModeCommand::MoveDown) == state.move_down(),
{
}

/// Moving up from the first line of the document changes nothing.
pub proof fn lemma_move_up_bounded(state: EditorState)
    requires
        state.wf(),
    ensures
        state.move_up().wf(),
        state.curr_line_nr() == 0 ==> state.move_up() == state,
        state.curr_line_nr() > 0 ==> state.move_up().curr_line_nr() == state.curr_line_nr() - 1,
{
}

/// Which commands use up the repeat count: the two jumps, the deletions,
/// the added lines and the word motions leave none; every other command
/// leaves it as it was.
pub proof fn lemma_prefix_consumed(state: EditorState, command: NormalModeCommand)
    ensures
        state.apply_normal(command).parser.pending == state.parser.pending,
        state.apply_normal(command).parser.prefix == (match command {
            NormalModeCommand::MoveToBottom
            | NormalModeCommand::MoveToTop
            | NormalModeCommand::DeleteLine
            | NormalModeCommand::AddLineBottom
            | NormalModeCommand::AddLineTop
            | NormalModeCommand::NextWord
            | NormalModeCommand::PrevWord
            | NormalModeCommand::DeleteChar => None,
            _ => state.parser.prefix,
        }),
{
    let count = repeat_count(state.parser.prefix);
    lemma_repeated_commands_keep(state, count);
}

/// The repeated commands leave the parser, the mode, the mark for
/// drawing and the height of the viewport as they are, and the word
/// motions leave the document as it is.
pub proof fn lemma_repeated_commands_keep(state: EditorState, count: int)
    ensures
        state.next_words(count).parser == state.parser,
        state.prev_words(count).parser == state.parser,
        state.add_lines_bottom(count).parser == state.parser,
        state.next_words(count).mode == state.mode,
        state.prev_words(count).mode == state.mode,
        state.add_lines_bottom(count).mode == state.mode,
        state.next_words(count).changed == state.changed,
        state.prev_words(count).changed == state.changed,
        state.add_lines_bottom(count).changed == state.changed,
        state.next_words(count).term_rows == state.term_rows,
        state.prev_words(count).term_rows == state.term_rows,
        state.add_lines_bottom(count).term_rows == state.term_rows,
        state.next_words(count).lines == state.lines,
        state.prev_words(count).lines == state.lines,
    decreases count,
{
    if count > 0 {
        lemma_repeated_commands_keep(state.next_word(), count - 1);
        lemma_repeated_commands_keep(state.prev_word(), count - 1);
        lemma_repeated_commands_keep(state.add_line_below(), count - 1);
    }
}

/// The mode changes with three commands only: `EnterInsertMode` and
/// `Append` lead to insert mode, `EnterNormalMode` leads back. These three
/// mark the editor for drawing; no other command touches the mark.
pub proof fn lemma_mode_changes(
    state: EditorState,
    normal: NormalModeCommand,
    insert: InsertModeCommand,
)
    ensures
        state.apply_normal(normal).mode == (if normal == NormalModeCommand::EnterInsertMode
            || normal == NormalModeCommand::Append {
            InputMode::Insert
        } else {
            state.mode
        }),
        state.apply_normal(normal).changed == (normal == NormalModeCommand::EnterInsertMode
            || normal == NormalModeCommand::Append || state.changed),
        state.apply_insert(insert).mode == (if insert == InsertModeCommand::EnterNormalMode {
            InputMode::Normal
        } else {
            state.mode
        }),
        state.apply_insert(insert).changed == (insert == InsertModeCommand::EnterNormalMode
            || state.changed),
        state.apply_normal(normal).term_rows == state.term_rows,
        state.apply_insert(insert).term_rows == state.term_rows,
{
    lemma_repeated_commands_keep(state, repeat_count(state.parser.prefix));
}

/// The document changes with four commands of normal mode only: the
/// deletion of lines and of characters and the two additions of lines.
/// Every other command leaves each line as it is.
pub proof fn lemma_movement_keeps_document(state: EditorState, command: NormalModeCommand)
    requires
        command != NormalModeCommand::DeleteLine,
        command != NormalModeCommand::DeleteChar,
        command != NormalModeCommand::AddLineTop,
        command != NormalModeCommand::AddLineBottom,
    ensures
        state.normal_effect(command).lines == state.lines,
        state.apply_normal(command).lines == state.lines,
{
    lemma_repeated_commands_keep(state, repeat_count(state.parser.prefix));
}

} // verus!
