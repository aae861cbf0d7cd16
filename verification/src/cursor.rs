//! The cursor: a position on the screen, counted from zero.

use vstd::prelude::*;
use vstd::string::*;
use crate::ansi;
use crate::min_todo::InputMode;

verus! {

/// The current cursor position: `x` is the column, `y` the row of the
/// viewport, both counted from zero.
#[derive(Debug, Clone, Copy, PartialEq, Eq, Structural)]
pub struct Cursor {
    pub x: usize,
    pub y: usize,
}

/// A coordinate moved by `delta`, kept within what a `usize` holds: a move
/// below zero ends at zero.
pub open spec fn shifted(pos: int, delta: int) -> int {
    if pos + delta < 0 {
        0
    } else if pos + delta > usize::MAX {
        usize::MAX as int
    } else {
        pos + delta
    }
}

/// A coordinate as the terminal counts it: from one, and no larger than
/// a `u16` holds.
pub open spec fn wire(pos: usize) -> u16 {
    if pos < u16::MAX {
        (pos + 1) as u16
    } else {
        u16::MAX
    }
}

/// The text that places the cursor on the screen and gives it the shape of
/// the mode: a block in normal mode, a bar in insert mode.
pub open spec fn cursor_text(cursor: Cursor, mode: InputMode) -> Seq<char> {
    ansi::show_text() + ansi::goto_text(wire(cursor.x), wire(cursor.y)) + match mode {
        InputMode::Normal => ansi::steady_block_text(),
        InputMode::Insert => ansi::steady_bar_text(),
    }
}

/// Moves a coordinate by `delta`.
fn shift(pos: usize, delta: i32) -> (moved: usize)
    ensures
        moved == shifted(pos as int, delta as int),
{
    if delta < 0 {
        let back: i64 = -(delta as i64);
        pos.saturating_sub(back as usize)
    } else {
        pos.saturating_add(delta as usize)
    }
}

/// A coordinate as the terminal counts it.
fn to_wire(pos: usize) -> (w: u16)
    ensures
        w == wire(pos),
{
    if pos < 65535 {
        (pos + 1) as u16
    } else {
        65535
    }
}

impl Cursor {
    /// The text to write to the terminal to draw the cursor.
    pub fn render(&self, mode: &InputMode) -> (out: String)
        ensures
            out@ == cursor_text(*self, *mode),
    {
        let mut out = ansi::show();
        let goto = ansi::goto(to_wire(self.x), to_wire(self.y));
        out.append(goto.as_str());
        let shape = match mode {
            InputMode::Normal => ansi::steady_block(),
            InputMode::Insert => ansi::steady_bar(),
        };
        out.append(shape.as_str());
        out
    }

    /// Moves the cursor by `x` columns. A move to the left stops at
    /// column zero.
    pub fn move_x(&mut self, x: i32)
        ensures
            final(self).x == shifted(old(self).x as int, x as int),
            final(self).y == old(self).y,
    {
        self.x = shift(self.x, x);
    }

    /// Moves the cursor by `y` rows. A move upwards stops at row zero.
    pub fn move_y(&mut self, y: i32)
        ensures
            final(self).y == shifted(old(self).y as int, y as int),
            final(self).x == old(self).x,
    {
        self.y = shift(self.y, y);
    }
}

impl Default for Cursor {
    fn default() -> (cursor: Cursor)
        ensures
            cursor.x == 0,
            cursor.y == 0,
    {
        Cursor { x: 0, y: 0 }
    }
}

} // verus!
