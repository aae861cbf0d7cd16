//! Word boundaries within a line: where the word motions stop.

use vstd::prelude::*;

verus! {

/// Whether `c` is an ASCII punctuation character.
pub open spec fn is_punctuation(c: char) -> bool {
    ||| '!' <= c <= '/'
    ||| ':' <= c <= '@'
    ||| '[' <= c <= '`'
    ||| '{' <= c <= '~'
}

/// Whether `c` ends a word: punctuation or the space.
pub open spec fn is_boundary(c: char) -> bool {
    is_punctuation(c) || c == ' '
}

/// The index of the first boundary character of `line` at or after `from`,
/// or the length of the line if there is none.
pub open spec fn next_boundary(line: Seq<char>, from: int) -> int
    decreases line.len() - from,
{
    if from < 0 || from >= line.len() {
        line.len() as int
    } else if is_boundary(line[from]) {
        from
    } else {
        next_boundary(line, from + 1)
    }
}

/// The index just behind the last boundary character among the first
/// `upto` characters of `line`, or zero if there is none.
pub open spec fn prev_stop(line: Seq<char>, upto: int) -> int
    decreases upto,
{
    if upto <= 0 {
        0
    } else if upto <= line.len() && is_boundary(line[upto - 1]) {
        upto
    } else {
        prev_stop(line, upto - 1)
    }
}

/// The forward scan stops at the first boundary character: it lies at or
/// after `from`, no boundary character stands before it, and it is a
/// boundary character unless the line has run out.
pub proof fn lemma_next_boundary(line: Seq<char>, from: int)
    requires
        0 <= from <= line.len(),
    ensures
        from <= next_boundary(line, from) <= line.len(),
        forall|i: int| from <= i < next_boundary(line, from) ==> !is_boundary(#[trigger] line[i]),
        next_boundary(line, from) < line.len() ==> is_boundary(line[next_boundary(line, from)]),
    decreases line.len() - from,
{
    if from < line.len() && !is_boundary(line[from]) {
        lemma_next_boundary(line, from + 1);
    }
}

/// The backward scan stops just behind the last boundary character: the
/// stop is at most `upto`, no boundary character stands between it and
/// `upto`, and the character before it is a boundary character unless the
/// stop is the start of the line.
pub proof fn lemma_prev_stop(line: Seq<char>, upto: int)
    requires
        upto <= line.len(),
    ensures
        0 <= prev_stop(line, upto),
        upto >= 0 ==> prev_stop(line, upto) <= upto,
        forall|i: int| prev_stop(line, upto) <= i < upto ==> !is_boundary(#[trigger] line[i]),
        prev_stop(line, upto) > 0 ==> is_boundary(line[prev_stop(line, upto) - 1]),
    decreases upto,
{
    if upto > 0 && !is_boundary(line[upto - 1]) {
        lemma_prev_stop(line, upto - 1);
    }
}

/// Whether `c` ends a word.
pub fn is_boundary_char(c: char) -> (b: bool)
    ensures
        b == is_boundary(c),
{
    ('!' <= c && c <= '/') || (':' <= c && c <= '@') || ('[' <= c && c <= '`') || ('{' <= c
        && c <= '~') || c == ' '
}

/// Scans `line` forwards from `from` for a boundary character.
pub fn find_next_boundary(line: &Vec<char>, from: usize) -> (at: usize)
    ensures
        at == next_boundary(line@, from as int),
{
    let mut i: usize = from;
    while i < line.len() && !is_boundary_char(line[i])
        invariant
            from <= i,
            next_boundary(line@, i as int) == next_boundary(line@, from as int),
        decreases line.len() - i,
    {
        i += 1;
    }
    if i < line.len() {
        i
    } else {
        line.len()
    }
}

/// Scans the first `upto` characters of `line` backwards for a boundary
/// character.
pub fn find_prev_stop(line: &Vec<char>, upto: usize) -> (at: usize)
    requires
        upto <= line.len(),
    ensures
        at == prev_stop(line@, upto as int),
{
    let mut i: usize = upto;
    while i > 0 && !is_boundary_char(line[i - 1])
        invariant
            i <= upto <= line.len(),
            prev_stop(line@, i as int) == prev_stop(line@, upto as int),
        decreases i,
    {
        i -= 1;
    }
    i
}

} // verus!
