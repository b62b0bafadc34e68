//! Source location tracking: positions and spans.

use vstd::prelude::*;

verus! {

/// A location in source code.
#[derive(Debug, Clone, Copy, PartialEq, Eq, Hash, Structural)]
pub struct Position {
    pub line: u32,
    pub column: u32,
    pub offset: u32,
}

/// Ordering on positions: by line, then column, then offset.
pub open spec fn pos_lt(a: Position, b: Position) -> bool {
    a.line < b.line
        || (a.line == b.line && a.column < b.column)
        || (a.line == b.line && a.column == b.column && a.offset < b.offset)
}

impl Position {
    pub fn new(line: u32, column: u32, offset: u32) -> (p: Position)
        ensures
            p.line == line,
            p.column == column,
            p.offset == offset,
    {
        Position { line, column, offset }
    }

    /// The first position of a source file.
    pub fn start() -> (p: Position)
        ensures
            p.line == 1,
            p.column == 1,
            p.offset == 0,
    {
        Position { line: 1, column: 1, offset: 0 }
    }

    /// Strict ordering test, by line, then column, then offset.
    pub fn precedes(&self, other: &Position) -> (r: bool)
        ensures
            r == pos_lt(*self, *other),
    {
        self.line < other.line
            || (self.line == other.line && self.column < other.column)
            || (self.line == other.line && self.column == other.column
                && self.offset < other.offset)
    }
}

/// A span in source code.
#[derive(Debug, Clone, Copy, PartialEq, Eq, Hash, Structural)]
pub struct Span {
    pub start: Position,
    pub end: Position,
}

impl Span {
    pub fn new(start: Position, end: Position) -> (s: Span)
        ensures
            s.start == start,
            s.end == end,
    {
        Span { start, end }
    }

    /// A span that covers a single position.
    pub fn single(pos: Position) -> (s: Span)
        ensures
            s.start == pos,
            s.end == pos,
    {
        Span { start: pos, end: pos }
    }

    /// The byte range covered by the span.
    pub fn range(&self) -> (r: (usize, usize))
        ensures
            r.0 == self.start.offset,
            r.1 == self.end.offset,
    {
        (self.start.offset as usize, self.end.offset as usize)
    }

    /// The smallest span that covers both spans.
    pub fn merge(self, other: Span) -> (s: Span)
        ensures
            s.start == (if pos_lt(self.start, other.start) { self.start } else { other.start }),
            s.end == (if pos_lt(other.end, self.end) { self.end } else { other.end }),
    {
        Span {
            start: if self.start.precedes(&other.start) { self.start } else { other.start },
            end: if other.end.precedes(&self.end) { self.end } else { other.end },
        }
    }

    /// Whether the span covers no bytes.
    pub fn is_empty(&self) -> (r: bool)
        ensures
            r == (self.start.offset == self.end.offset),
    {
        self.start.offset == self.end.offset
    }
}

} // verus!
