//! The document, its viewport and the application of commands to them.

use vstd::prelude::*;
use vstd::string::*;
use crate::ansi;
use crate::char_parser::{decode, parse_char};
use crate::command_parser::{CommandParser, InsertModeCommand, NormalModeCommand};
use crate::cursor::{shifted, Cursor};
use crate::editor_state::{
    clear_text, empty_lines, lemma_add_lines_bottom_without_line, line_text, lines_text,
    repeat_count, scroll_up_row, without_chars, EditorState,
};
use crate::words::{find_next_boundary, find_prev_stop};

verus! {

/// One input event as read from the terminal: up to four bytes, zero-padded.
pub type Buffer = [u8; 4];

/// `String::push` appends one character to the end of the string.
pub assume_specification[ String::push ](s: &mut String, c: char)
    ensures
        final(s)@ == old(s)@.push(c),
;

/// One line of the document: its characters in order.
#[derive(Debug)]
pub struct Line {
    pub content: Vec<char>,
}

impl View for Line {
    type V = Seq<char>;

    open spec fn view(&self) -> Seq<char> {
        self.content@
    }
}

impl Line {
    /// An empty line.
    pub fn new() -> (line: Line)
        ensures
            line@ == Seq::<char>::empty(),
    {
        Line { content: Vec::new() }
    }

    /// The line that holds the characters of `content`.
    pub fn from(content: &str) -> (line: Line)
        ensures
            line@ == content@,
    {
        let mut chars: Vec<char> = Vec::new();
        for c in it: content.chars()
            invariant
                chars@ == it.seq().take(it.index()),
                it.seq() == content@,
        {
            chars.push(c);
        }
        Line { content: chars }
    }

    /// The number of characters of the line.
    pub fn len(&self) -> (n: usize)
        ensures
            n == self@.len(),
    {
        self.content.len()
    }

    /// The text to write to the terminal to draw the line.
    pub fn render(&self) -> (out: String)
        ensures
            out@ == line_text(self@),
    {
        let mut out = String::new();
        out.push('\n');
        out.push('\r');
        let mut i: usize = 0;
        while i < self.content.len()
            invariant
                i <= self.content.len(),
                out@ == line_text(self@.take(i as int)),
            decreases self.content.len() - i,
        {
            out.push(self.content[i]);
            i += 1;
        }
        out
    }
}

/// The two modes of the editor.
#[derive(Debug, Clone, Copy, PartialEq, Eq, Structural)]
pub enum InputMode {
    Normal,
    Insert,
}

/// The editor: the document, the cursor, the viewport, the mode and the
/// command parser.
///
/// `scroll_beg` and `scroll_end` are the numbers of the first line in the
/// viewport and of the first line below it; `changed` says that the screen
/// is to be drawn again.
#[derive(Debug)]
pub struct MinTodo {
    pub content: Vec<Line>,
    pub cursor: Cursor,
    pub changed: bool,
    pub scroll_beg: usize,
    pub scroll_end: usize,
    pub start_scroll_up: usize,
    pub start_scroll_down: usize,
    pub term_rows: usize,
    pub command_parser: CommandParser,
    pub mode: InputMode,
}

/// The lines of a document as plain values.
pub open spec fn lines_of(content: Seq<Line>) -> Seq<Seq<char>> {
    content.map_values(|line: Line| line@)
}

/// The end of a viewport of `rows` rows that starts at line `beg`, kept
/// within what a `usize` holds.
pub open spec fn window_end(beg: usize, rows: usize) -> usize {
    if beg + rows <= usize::MAX {
        (beg + rows) as usize
    } else {
        usize::MAX
    }
}

impl View for MinTodo {
    type V = EditorState;

    open spec fn view(&self) -> EditorState {
        EditorState {
            lines: lines_of(self.content@),
            x: self.cursor.x as int,
            y: self.cursor.y as int,
            scroll_beg: self.scroll_beg as int,
            term_rows: self.term_rows as int,
            mode: self.mode,
            changed: self.changed,
            parser: self.command_parser@,
        }
    }
}

impl MinTodo {
    /// Whether the fields that follow from the others hold what they
    /// should: the two scroll rows and the end of the viewport.
    pub open spec fn derived(&self) -> bool {
        &&& self.start_scroll_up == scroll_up_row()
        &&& self.start_scroll_down == self@.scroll_down_row()
        &&& self.scroll_end == window_end(self.scroll_beg, self.term_rows)
    }

    /// Validity of the editor: its state is valid and the derived fields
    /// agree with it.
    pub open spec fn wf(&self) -> bool {
        self@.wf() && self.derived()
    }

    /// In a valid editor the viewport does not end before it starts, it
    /// starts within the document, and the cursor is on a line that is
    /// drawn, unless the document is empty.
    pub proof fn lemma_cursor_is_visible(&self)
        requires
            self.wf(),
        ensures
            self.scroll_beg <= self.scroll_end,
            self.scroll_beg <= self.content@.len(),
            self.content@.len() > 0 ==> self.scroll_beg <= self@.curr_line_nr()
                < self@.visible_end(),
    {
        assert(self@.len() == self.content@.len());
    }

    /// An editor with an empty document for a terminal of `term_rows` rows.
    pub fn new(term_rows: usize) -> (editor: MinTodo)
        requires
            term_rows >= 1,
        ensures
            editor.wf(),
            editor@ == EditorState::initial(term_rows as int),
    {
        let editor = MinTodo {
            content: Vec::new(),
            cursor: Cursor { x: 0, y: 0 },
            changed: true,
            scroll_beg: 0,
            scroll_end: term_rows,
            term_rows,
            start_scroll_up: 5,
            start_scroll_down: term_rows.saturating_sub(5),
            command_parser: CommandParser::new(),
            mode: InputMode::Normal,
        };
        assert(editor@.lines =~= Seq::empty());
        editor
    }

    /// Whether the editor is valid.
    pub fn is_wf(&self) -> (ok: bool)
        ensures
            ok == self.wf(),
    {
        self.term_rows >= 1 && self.cursor.y < self.term_rows && self.start_scroll_up == 5
            && self.start_scroll_down == self.term_rows.saturating_sub(5) && self.scroll_end
            == self.scroll_beg.saturating_add(self.term_rows) && (self.cursor.y == 0
            && self.scroll_beg == 0 || self.cursor.y < self.content.len() && self.scroll_beg
            < self.content.len() - self.cursor.y)
    }

    /// Appends `line` to the document. Nothing else changes.
    pub fn add_line(&mut self, line: Line)
        ensures
            final(self)@ == (EditorState {
                lines: old(self)@.lines.push(line@),
                ..old(self)@
            }),
            final(self).same_but_content(old(self)),
            old(self).wf() ==> final(self).wf(),
    {
        self.content.push(line);
        assert(self@.lines =~= old(self)@.lines.push(line@));
    }

    /// The text that clears the screen and puts the cursor in its upper
    /// left corner.
    pub fn clear() -> (out: String)
        ensures
            out@ == clear_text(),
    {
        let mut out = ansi::goto(1, 1);
        out.append(ansi::clear_all().as_str());
        out
    }

    /// Puts the viewport's first row on line `beg`.
    fn set_scroll_beg(&mut self, beg: usize)
        requires
            old(self).derived(),
        ensures
            final(self).derived(),
            final(self)@ == (EditorState { scroll_beg: beg as int, ..old(self)@ }),
    {
        self.scroll_beg = beg;
        self.scroll_end = beg.saturating_add(self.term_rows);
    }

    /// Moves one line down, scrolling where the cursor is low in the
    /// viewport and lines are left below it.
    pub fn move_cur_down(&mut self)
        requires
            old(self).wf(),
        ensures
            final(self).wf(),
            final(self)@ == old(self)@.move_down(),
    {
        if self.cursor.y >= self.start_scroll_down && self.scroll_end < self.content.len() {
            self.set_scroll_beg(self.scroll_beg + 1);
        } else if self.content.len() > 0 && self.curr_line_nr() < self.content.len() - 1 {
            self.cursor.move_y(1);
        }
    }

    /// Moves one line up, scrolling where the cursor is high in the
    /// viewport and lines are left above it.
    pub fn move_cur_up(&mut self)
        requires
            old(self).wf(),
        ensures
            final(self).wf(),
            final(self)@ == old(self)@.move_up(),
    {
        if self.cursor.y == self.start_scroll_up && self.scroll_beg > 0 || (self.cursor.y == 0
            && self.scroll_beg != 0) {
            self.set_scroll_beg(self.scroll_beg - 1);
        } else {
            self.cursor.move_y(-1);
        }
    }

    /// Moves to line `line`, counted from zero, or to the bottom where the
    /// document ends at or before it.
    pub fn move_to_line(&mut self, line: usize)
        requires
            old(self).wf(),
        ensures
            final(self).wf(),
            final(self)@ == old(self)@.move_to_line(line as int),
    {
        if self.content.len() == 0 || line >= self.content.len() - 1 {
            self.move_to_bottom();
            return ;
        }
        self.set_scroll_beg(line);
        self.cursor.y = 0;
    }

    /// Moves to the first line.
    pub fn move_to_top(&mut self)
        requires
            old(self).wf(),
        ensures
            final(self).wf(),
            final(self)@ == old(self)@.move_to_top(),
    {
        self.set_scroll_beg(0);
        self.cursor.y = 0;
    }

    /// Moves to the last line.
    pub fn move_to_bottom(&mut self)
        requires
            old(self).wf(),
        ensures
            final(self).wf(),
            final(self)@ == old(self)@.move_to_bottom(),
    {
        let len = self.content.len();
        if len >= self.term_rows {
            self.set_scroll_beg(len - self.term_rows);
            self.cursor.y = self.term_rows - 1;
        } else {
            self.set_scroll_beg(0);
            self.cursor.y = len.saturating_sub(1);
        }
    }

    /// The number of the line that the cursor is on.
    pub fn curr_line_nr(&self) -> (nr: usize)
        requires
            self.wf(),
        ensures
            nr == self@.curr_line_nr(),
    {
        assert(self@.len() == self.content.len());
        self.cursor.y + self.scroll_beg
    }

    /// The length of the line that the cursor is on; zero in an empty
    /// document.
    pub fn curr_line_len(&self) -> (n: usize)
        requires
            self.wf(),
        ensures
            n == self@.curr_line_len(),
    {
        match self.curr_line() {
            Some(line) => line.len(),
            None => 0,
        }
    }

    /// The line that the cursor is on; none in an empty document.
    pub fn curr_line(&self) -> (line: Option<&Line>)
        requires
            self.wf(),
        ensures
            line is Some <==> self@.has_line(),
            line matches Some(l) ==> l@ == self@.curr_line(),
    {
        let nr = self.curr_line_nr();
        if nr < self.content.len() {
            Some(&self.content[nr])
        } else {
            None
        }
    }

    /// The line that the cursor is on, to be changed in place; none in an
    /// empty document.
    pub fn curr_line_mut(&mut self) -> (line: Option<&mut Line>)
        requires
            old(self).wf(),
        ensures
            line is Some <==> old(self)@.has_line(),
            line matches Some(l) ==> l@ == old(self)@.curr_line() && final(self)@ == old(
                self,
            )@.with_curr_line(final(l)@),
            line is None ==> final(self)@ == old(self)@,
            final(self).wf(),
    {
        let idx = self.curr_line_nr();
        assert(self@.len() == self.content@.len());
        if idx < self.content.len() {
            assert forall|changed: Line| #[trigger]
                lines_of(self.content@.update(idx as int, changed)) == self@.lines.update(
                    idx as int,
                    changed@,
                ) by {
                assert(lines_of(self.content@.update(idx as int, changed)) =~= self@.lines.update(
                    idx as int,
                    changed@,
                ));
            }
            Some(&mut self.content[idx])
        } else {
            None
        }
    }

    /// Brings the cursor back onto its line.
    pub fn align_cursor(&mut self)
        requires
            old(self).wf(),
        ensures
            final(self).wf(),
            final(self)@ == old(self)@.align_cursor(),
    {
        let len = self.curr_line_len();
        let last = if len >= 1 {
            len - 1
        } else {
            0
        };
        if last < self.cursor.x {
            self.cursor.x = last;
        }
    }

    /// Whether `other` differs from this editor in the document at most.
    pub open spec fn same_but_content(&self, other: &MinTodo) -> bool {
        &&& self.cursor == other.cursor
        &&& self.changed == other.changed
        &&& self.scroll_beg == other.scroll_beg
        &&& self.scroll_end == other.scroll_end
        &&& self.start_scroll_up == other.start_scroll_up
        &&& self.start_scroll_down == other.start_scroll_down
        &&& self.term_rows == other.term_rows
        &&& self.command_parser == other.command_parser
        &&& self.mode == other.mode
    }

    /// How often the next repeated command runs.
    fn repeat_count(&self) -> (count: usize)
        ensures
            count == repeat_count(self@.parser.prefix),
            count >= 1,
    {
        match self.command_parser.nr_prefix() {
            Some(n) => if n >= 1 {
                n
            } else {
                1
            },
            None => 1,
        }
    }

    /// Removes up to `count` lines from the cursor's line on.
    fn delete_lines(&mut self, count: usize)
        requires
            old(self).wf(),
            count >= 1,
        ensures
            final(self).wf(),
            final(self)@ == old(self)@.delete_lines(count as int),
    {
        let at = self.curr_line_nr();
        let len = self.content.len();
        if at < len {
            let n = if count < len - at {
                count
            } else {
                len - at
            };
            let mut k: usize = 0;
            while k < n
                invariant
                    k <= n,
                    at + n <= len,
                    len == old(self).content@.len(),
                    self.same_but_content(old(self)),
                    self.content@ =~= old(self).content@.subrange(0, at as int) + old(
                        self,
                    ).content@.subrange(at + k, len as int),
                decreases n - k,
            {
                self.content.remove(at);
                k += 1;
            }
            assert(self@.lines =~= old(self)@.lines.subrange(0, at as int) + old(
                self,
            )@.lines.subrange(at + n, len as int));
            if at >= self.content.len() && at > 0 {
                if self.cursor.y > 0 {
                    self.cursor.y -= 1;
                } else {
                    self.set_scroll_beg(self.scroll_beg - 1);
                }
            }
        }
    }

    /// Puts `count` empty lines before the cursor's line.
    fn add_lines_top(&mut self, count: usize)
        requires
            old(self).wf(),
            count >= 1,
        ensures
            final(self).wf(),
            final(self)@ == old(self)@.add_lines_top(count as int),
    {
        let at = self.curr_line_nr();
        let ghost lines = self@.lines;
        let mut k: usize = 0;
        while k < count
            invariant
                k <= count,
                at <= lines.len(),
                lines == old(self)@.lines,
                self.same_but_content(old(self)),
                self@.lines =~= lines.subrange(0, at as int) + empty_lines(
                    k as int,
                ) + lines.subrange(at as int, lines.len() as int),
            decreases count - k,
        {
            let ghost before = self@.lines;
            assert(before.len() == self.content@.len());
            self.content.insert(at, Line::new());
            assert(self@.lines =~= before.insert(at as int, Seq::empty()));
            k += 1;
        }
    }

    /// Puts `count` empty lines behind the cursor's line, moving down onto
    /// each.
    fn add_lines_bottom(&mut self, count: usize)
        requires
            old(self).wf(),
        ensures
            final(self).wf(),
            final(self)@ == old(self)@.add_lines_bottom(count as int),
    {
        if self.curr_line_nr() < self.content.len() {
            let mut k: usize = 0;
            while k < count
                invariant
                    k <= count,
                    self.wf(),
                    self@.has_line(),
                    self@.add_lines_bottom(count - k) == old(self)@.add_lines_bottom(count as int),
                decreases count - k,
            {
                let at = self.curr_line_nr();
                let ghost before = self@;
                assert(at < self.content.len()) by {
                    assert(before.len() == self.content@.len());
                }
                self.content.insert(at + 1, Line::new());
                assert(self@.lines =~= before.lines.insert(at + 1, Seq::empty()));
                self.move_cur_down();
                k += 1;
            }
        } else {
            proof {
                lemma_add_lines_bottom_without_line(self@, count as int);
            }
        }
    }

    /// Moves to the start of the next word.
    fn next_word(&mut self)
        requires
            old(self).wf(),
        ensures
            final(self).wf(),
            final(self)@ == old(self)@.next_word(),
    {
        let nr = self.curr_line_nr();
        if nr < self.content.len() {
            let len = self.content[nr].len();
            let at = find_next_boundary(&self.content[nr].content, self.cursor.x);
            if at < len {
                if at + 1 >= len - 1 {
                    self.move_cur_down();
                    self.cursor.x = 0;
                } else {
                    self.cursor.x = at + 1;
                }
            }
        }
    }

    /// Moves `count` words forwards.
    fn next_words(&mut self, count: usize)
        requires
            old(self).wf(),
        ensures
            final(self).wf(),
            final(self)@ == old(self)@.next_words(count as int),
    {
        let mut k: usize = 0;
        while k < count
            invariant
                k <= count,
                self.wf(),
                self@.next_words(count - k) == old(self)@.next_words(count as int),
            decreases count - k,
        {
            self.next_word();
            k += 1;
        }
    }

    /// Moves to the start of the previous word.
    fn prev_word(&mut self)
        requires
            old(self).wf(),
        ensures
            final(self).wf(),
            final(self)@ == old(self)@.prev_word(),
    {
        if self.curr_line_nr() < self.content.len() {
            if self.cursor.x == 0 && self.curr_line_nr() != 0 {
                self.move_cur_up();
                self.cursor.x = self.curr_line_len().saturating_sub(1);
            }
            let nr = self.curr_line_nr();
            let len = self.content[nr].len();
            let from = if self.cursor.x < len {
                self.cursor.x
            } else {
                len
            };
            let stop = if from >= 1 {
                find_prev_stop(&self.content[nr].content, from - 1)
            } else {
                0
            };
            self.cursor.x = stop;
        }
    }

    /// Moves `count` words backwards.
    fn prev_words(&mut self, count: usize)
        requires
            old(self).wf(),
        ensures
            final(self).wf(),
            final(self)@ == old(self)@.prev_words(count as int),
    {
        let mut k: usize = 0;
        while k < count
            invariant
                k <= count,
                self.wf(),
                self@.prev_words(count - k) == old(self)@.prev_words(count as int),
            decreases count - k,
        {
            self.prev_word();
            k += 1;
        }
    }

    /// Removes up to `count` characters from the cursor on.
    fn delete_chars(&mut self, count: usize)
        requires
            old(self).wf(),
        ensures
            final(self).wf(),
            final(self)@ == old(self)@.delete_chars(count as int),
    {
        let nr = self.curr_line_nr();
        let x = self.cursor.x;
        if nr < self.content.len() && x < self.content[nr].len() {
            let len = self.content[nr].len();
            let n = if count < len - x {
                count
            } else {
                len - x
            };
            let ghost line = self@.curr_line();
            assert(line == self.content@[nr as int]@);
            assert(self@.lines =~= self@.lines.update(
                nr as int,
                line.subrange(0, x as int) + line.subrange(x as int, len as int),
            )) by {
                assert(line.subrange(0, x as int) + line.subrange(x as int, len as int) =~= line);
            }
            let mut k: usize = 0;
            while k < n
                invariant
                    k <= n,
                    x + n <= len,
                    len == line.len(),
                    nr < self.content@.len(),
                    line == old(self)@.curr_line(),
                    nr == old(self)@.curr_line_nr(),
                    old(self)@.has_line(),
                    self.same_but_content(old(self)),
                    self@.lines =~= old(self)@.lines.update(
                        nr as int,
                        line.subrange(0, x as int) + line.subrange(x + k, len as int),
                    ),
                decreases n - k,
            {
                let ghost before = self@.lines;
                assert(before[nr as int] == self.content@[nr as int]@);
                self.content[nr].content.remove(x);
                assert(self@.lines =~= before.update(nr as int, before[nr as int].remove(x as int)));
                assert(before[nr as int].remove(x as int) =~= line.subrange(0, x as int)
                    + line.subrange(x + k + 1, len as int));
                k += 1;
            }
            assert(line.subrange(0, x as int) + line.subrange(x + n, len as int)
                =~= without_chars(line, x as int, count as int));
        }
    }

    /// Jumps to the line that the repeat count names, or to the top or the
    /// bottom where there is no count.
    fn jump(&mut self, to_top: bool)
        requires
            old(self).wf(),
        ensures
            final(self).wf(),
            final(self)@ == (match old(self)@.parser.prefix {
                Some(line) => old(self)@.move_to_line(line as int).consume_prefix(),
                None => if to_top {
                    old(self)@.move_to_top()
                } else {
                    old(self)@.move_to_bottom()
                },
            }),
    {
        match self.command_parser.nr_prefix() {
            Some(nr_prefix) => {
                self.move_to_line(nr_prefix);
                self.command_parser.clear_nr_prefix();
            },
            None => {
                if to_top {
                    self.move_to_top();
                } else {
                    self.move_to_bottom();
                }
            },
        }
    }

    /// Switches to insert mode, behind the cursor's character for `append`.
    fn enter_insert_mode(&mut self, append: bool)
        requires
            old(self).wf(),
        ensures
            final(self).wf(),
            final(self)@ == (EditorState {
                mode: InputMode::Insert,
                changed: true,
                x: if append {
                    shifted(old(self)@.x, 1)
                } else {
                    old(self)@.x
                },
                ..old(self)@
            }),
    {
        self.mode = InputMode::Insert;
        if append {
            self.cursor.move_x(1);
        }
        self.changed = true;
    }

    /// Runs a command that the repeat count repeats, and uses the count up.
    fn repeated(&mut self, command: NormalModeCommand)
        requires
            old(self).wf(),
            command == NormalModeCommand::DeleteLine || command == NormalModeCommand::AddLineBottom
                || command == NormalModeCommand::AddLineTop || command
                == NormalModeCommand::NextWord || command == NormalModeCommand::PrevWord || command
                == NormalModeCommand::DeleteChar,
        ensures
            final(self).wf(),
            final(self)@ == old(self)@.normal_effect(command),
    {
        let count = self.repeat_count();
        match command {
            NormalModeCommand::DeleteLine => self.delete_lines(count),
            NormalModeCommand::AddLineBottom => self.add_lines_bottom(count),
            NormalModeCommand::AddLineTop => self.add_lines_top(count),
            NormalModeCommand::NextWord => self.next_words(count),
            NormalModeCommand::PrevWord => self.prev_words(count),
            _ => self.delete_chars(count),
        }
        self.command_parser.clear_nr_prefix();
    }

    /// Applies a command of normal mode and brings the cursor back onto
    /// its line. The result is false for `Quit`, which ends the session and
    /// changes nothing, and true for every other command.
    pub fn handle_normal_mode_command(&mut self, command: NormalModeCommand) -> (go_on: bool)
        requires
            old(self).wf(),
        ensures
            final(self).wf(),
            final(self)@ == old(self)@.apply_normal(command),
            go_on == (command != NormalModeCommand::Quit),
    {
        match command {
            NormalModeCommand::Quit => {
                return false;
            },
            NormalModeCommand::MoveDown => self.move_cur_down(),
            NormalModeCommand::MoveUp => self.move_cur_up(),
            NormalModeCommand::MoveLeft => self.cursor.move_x(-1),
            NormalModeCommand::MoveRight => self.cursor.move_x(1),
            NormalModeCommand::MoveToBottom => self.jump(false),
            NormalModeCommand::MoveToTop => self.jump(true),
            NormalModeCommand::EnterInsertMode => self.enter_insert_mode(false),
            NormalModeCommand::Append => self.enter_insert_mode(true),
            NormalModeCommand::DeleteLine
            | NormalModeCommand::AddLineBottom
            | NormalModeCommand::AddLineTop
            | NormalModeCommand::NextWord
            | NormalModeCommand::PrevWord
            | NormalModeCommand::DeleteChar => self.repeated(command),
            NormalModeCommand::ToBeg => self.cursor.x = 0,
            NormalModeCommand::ToEnd => self.cursor.x = self.curr_line_len(),
            NormalModeCommand::GoTo => {},
            NormalModeCommand::Delete => {},
        }
        self.align_cursor();
        true
    }

    /// Applies a command of insert mode.
    pub fn handle_insert_mode_command(&mut self, command: InsertModeCommand)
        requires
            old(self).wf(),
        ensures
            final(self).wf(),
            final(self)@ == old(self)@.apply_insert(command),
    {
        match command {
            InsertModeCommand::EnterNormalMode => {
                self.mode = InputMode::Normal;
                self.cursor.move_x(-1);
                self.changed = true;
            },
            InsertModeCommand::Backspace => {
                let cursor_x = self.cursor.x;
                if cursor_x != 0 {
                    match self.curr_line_mut() {
                        Some(curr) => {
                            if cursor_x - 1 < curr.len() {
                                curr.content.remove(cursor_x - 1);
                                self.cursor.move_x(-1);
                            }
                        },
                        None => {},
                    }
                    assert(self@.lines =~= old(self)@.apply_insert(command).lines);
                }
            },
            InsertModeCommand::Delete => {
                let cursor_x = self.cursor.x;
                match self.curr_line_mut() {
                    Some(curr) => {
                        if cursor_x < curr.len() {
                            curr.content.remove(cursor_x);
                        }
                    },
                    None => {},
                }
                assert(self@.lines =~= old(self)@.apply_insert(command).lines);
            },
            InsertModeCommand::MoveUp => {
                self.move_cur_up();
            },
            InsertModeCommand::MoveDown => {
                self.move_cur_down();
            },
            InsertModeCommand::MoveLeft => {
                self.cursor.move_x(-1);
            },
            InsertModeCommand::MoveRight => {
                self.cursor.move_x(1);
            },
            InsertModeCommand::Insert(c) => {
                let cursor_x = self.cursor.x;
                match self.curr_line_mut() {
                    Some(curr) => {
                        if cursor_x <= curr.len() {
                            curr.content.insert(cursor_x, c);
                            self.cursor.move_x(1);
                        }
                    },
                    None => {},
                }
                assert(self@.lines =~= old(self)@.apply_insert(command).lines);
            },
        }
    }

    /// Decodes one input event, parses the key in the current mode and
    /// applies the command that it completes. The result is false if the
    /// event ends the session.
    pub fn handle_character(&mut self, buffer: Buffer) -> (go_on: bool)
        requires
            old(self).wf(),
        ensures
            final(self).wf(),
            final(self)@ == old(self)@.handle_key(decode(buffer@)),
            go_on == !old(self)@.quits(decode(buffer@)),
    {
        match parse_char(buffer) {
            Some(ch) => {
                match self.mode {
                    InputMode::Normal => {
                        match self.command_parser.parse_command(ch) {
                            Some(command) => {
                                return self.handle_normal_mode_command(command);
                            },
                            None => {},
                        }
                    },
                    InputMode::Insert => {
                        match self.command_parser.parse_insert_mode_command(ch) {
                            Some(command) => {
                                self.handle_insert_mode_command(command);
                            },
                            None => {},
                        }
                    },
                }
                true
            },
            None => true,
        }
    }

    /// Takes one input event. Unless it ends the session, the cursor is
    /// brought back onto its line and the editor is marked for drawing.
    /// The result is false if the event ends the session.
    pub fn update(&mut self, buffer: Buffer) -> (go_on: bool)
        requires
            old(self).wf(),
        ensures
            final(self).wf(),
            final(self)@ == old(self)@.update(buffer@),
            go_on == !old(self)@.quits(decode(buffer@)),
    {
        if !self.handle_character(buffer) {
            return false;
        }
        self.align_cursor();
        self.changed = true;
        true
    }

    /// The text to write to the terminal to draw the editor, if anything
    /// has changed since it was last drawn; the editor then counts as drawn.
    pub fn render(&mut self) -> (frame: Option<String>)
        requires
            old(self).wf(),
        ensures
            final(self).wf(),
            final(self)@ == (EditorState { changed: false, ..old(self)@ }),
            frame is Some <==> old(self).changed,
            frame matches Some(text) ==> text@ == old(self)@.frame(),
    {
        if !self.changed {
            return None;
        }
        self.changed = false;
        let mut out = Self::clear();
        let start = self.scroll_beg;
        let end = if self.scroll_end < self.content.len() {
            self.scroll_end
        } else {
            self.content.len()
        };
        assert(self@.len() == self.content@.len());
        let mut i: usize = start;
        while i < end
            invariant
                start <= i <= end <= self.content@.len(),
                out@ == clear_text() + lines_text(self@.lines.subrange(start as int, i as int)),
            decreases end - i,
        {
            let line = self.content[i].render();
            out.append(line.as_str());
            proof {
                let shown = self@.lines.subrange(start as int, i + 1);
                assert(shown.drop_last() =~= self@.lines.subrange(start as int, i as int));
            }
            i += 1;
        }
        let cursor = self.cursor.render(&self.mode);
        out.append(cursor.as_str());
        Some(out)
    }
}

} // verus!
