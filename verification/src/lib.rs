//! A modal, vi-style line editor core: key decoding, command parsing and the
//! document, cursor and viewport state that the commands act on.

pub mod ansi;
pub mod char_parser;
pub mod command_parser;
pub mod cursor;
pub mod editor_state;
pub mod min_todo;
pub mod words;
