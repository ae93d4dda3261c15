//! Source locations and values paired with them.
use vstd::prelude::*;

verus! {

/// A location in source text, as a half-open range of byte offsets.
#[derive(Clone, Copy, Debug, PartialEq, Eq, Hash, Structural)]
pub struct Span {
    pub start: usize,
    pub end: usize,
}

impl Span {
    /// The span covering the bytes `start..end`.
    pub fn new(start: usize, end: usize) -> (r: Span)
        ensures
            r == (Span { start, end }),
    {
        Span { start, end }
    }
}

/// A value together with the location it was read from.
#[derive(Clone, Debug, PartialEq, Eq)]
pub struct Spanned<T> {
    pub content: T,
    pub span: Span,
}

impl<T> Spanned<T> {
    /// Pairs `content` with `span`.
    pub fn new(content: T, span: Span) -> (r: Spanned<T>)
        ensures
            r == (Spanned { content, span }),
    {
        Spanned { content, span }
    }
}

} // verus!
