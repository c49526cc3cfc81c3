//! Source positions: byte offsets into a source unit, and values tagged with them.

use vstd::prelude::*;

verus! {

/// A byte offset into a source unit.
#[derive(Debug, Clone, Copy, PartialEq, Eq, Hash, Structural)]
pub struct Pos(pub u32);

impl Pos {
    /// The position at byte offset `x`.
    pub fn new(x: u32) -> (p: Pos)
        ensures
            p == Pos(x),
    {
        Pos(x)
    }

    /// The byte offset of this position.
    pub fn get(self) -> (x: u32)
        ensures
            x == self.0,
    {
        self.0
    }
}

/// A half-open range of byte offsets, `begin` included and `end` excluded.
///
/// A span only says where a fragment came from; nothing is computed from it.
#[derive(Debug, Clone, Copy, PartialEq, Eq, Hash, Structural)]
pub struct Span {
    pub begin: Pos,
    pub end: Pos,
}

impl Span {
    /// The span from `begin` up to, and not including, `end`.
    pub fn new(begin: Pos, end: Pos) -> (s: Span)
        ensures
            s == (Span { begin, end }),
    {
        Span { begin, end }
    }

    /// The position at which the span starts.
    pub fn begin(self) -> (p: Pos)
        ensures
            p == self.begin,
    {
        self.begin
    }

    /// The position just past the span.
    pub fn end(self) -> (p: Pos)
        ensures
            p == self.end,
    {
        self.end
    }
}

/// A value together with the span of the source text it was read from.
#[derive(Debug, Clone, Copy, PartialEq, Eq, Hash)]
pub struct Spanned<T> {
    pub node: T,
    pub span: Span,
}

impl<T> Spanned<T> {
    /// Replaces the node by what `f` makes of it; the span stays.
    pub fn into_map<U, F: FnOnce(T) -> U>(self, f: F) -> (r: Spanned<U>)
        requires
            f.requires((self.node,)),
        ensures
            r.span == self.span,
            f.ensures((self.node,), r.node),
    {
        Spanned { node: f(self.node), span: self.span }
    }
}

/// A source unit: the name of a file and its text.
///
/// Diagnostics refer to the unit they came from, so that a host can show the
/// place of a span in it.
#[derive(Debug, Clone, PartialEq, Eq, Hash)]
pub struct CodeMap {
    filename: String,
    source: String,
}

impl CodeMap {
    /// The name of the file, as a sequence of characters.
    pub closed spec fn spec_filename(&self) -> Seq<char> {
        self.filename@
    }

    /// The text of the file, as a sequence of characters.
    pub closed spec fn spec_source(&self) -> Seq<char> {
        self.source@
    }

    /// The source unit named `filename` that holds `source`.
    pub fn new(filename: String, source: String) -> (c: CodeMap)
        ensures
            c.spec_filename() == filename@,
            c.spec_source() == source@,
    {
        CodeMap { filename, source }
    }

    /// The name of the file.
    pub fn filename(&self) -> (s: &str)
        ensures
            s@ == self.spec_filename(),
    {
        self.filename.as_str()
    }

    /// The text of the file.
    pub fn source(&self) -> (s: &str)
        ensures
            s@ == self.spec_source(),
    {
        self.source.as_str()
    }
}

} // verus!
