//! Source locations: byte ranges within a source file, and the identity of
//! the file that a range belongs to.

use vstd::prelude::*;

verus! {

/// The identity of a source file. Opaque to this crate: two spans belong to
/// the same file exactly when their source identities are equal.
#[derive(Clone, Copy, Debug, PartialEq, Eq, Hash, Structural)]
pub struct SourceId(pub u32);

impl Default for SourceId {
    fn default() -> (id: Self)
        ensures
            id == SourceId(0),
    {
        SourceId(0)
    }
}

/// A half-open range of bytes `[start, end)`.
#[derive(Clone, Copy, Debug, PartialEq, Eq, Hash, Structural)]
pub struct ByteRange {
    /// The offset of the first byte of the range.
    pub start: usize,
    /// The offset one past the last byte of the range.
    pub end: usize,
}

impl ByteRange {
    /// The smallest range that covers both `self` and `other`: the smaller
    /// of the two starts and the larger of the two ends.
    pub open spec fn union(self, other: ByteRange) -> ByteRange {
        ByteRange {
            start: if self.start <= other.start {
                self.start
            } else {
                other.start
            },
            end: if self.end >= other.end {
                self.end
            } else {
                other.end
            },
        }
    }

    /// The range `[start, end)`.
    pub fn new(start: usize, end: usize) -> (range: ByteRange)
        ensures
            range == (ByteRange { start, end }),
    {
        ByteRange { start, end }
    }

    /// The offset of the first byte of the range.
    pub fn start(&self) -> (start: usize)
        ensures
            start == self.start,
    {
        self.start
    }

    /// The offset one past the last byte of the range.
    pub fn end(&self) -> (end: usize)
        ensures
            end == self.end,
    {
        self.end
    }

    /// Joins two ranges into the smallest range that covers both.
    pub fn join(&self, other: ByteRange) -> (joined: ByteRange)
        ensures
            joined == self.union(other),
    {
        let start: usize = if self.start <= other.start {
            self.start
        } else {
            other.start
        };
        let end: usize = if self.end >= other.end {
            self.end
        } else {
            other.end
        };
        ByteRange { start, end }
    }
}

/// A byte range within one source file.
#[derive(Clone, Copy, Debug, PartialEq, Eq, Hash, Structural)]
pub struct Span {
    /// The bytes that the span covers.
    pub range: ByteRange,
    /// The source file that the bytes belong to.
    pub id: SourceId,
}

impl Span {
    /// The sentinel that stands for "no span": the empty range at offset
    /// zero in the default source.
    pub open spec fn null_span() -> Span {
        Span { range: ByteRange { start: 0, end: 0 }, id: SourceId(0) }
    }

    /// Whether this span is the sentinel.
    pub open spec fn is_null(self) -> bool {
        self == Span::null_span()
    }

    /// The span that covers both `self` and `other`, within the source of
    /// `self`.
    pub open spec fn union(self, other: Span) -> Span {
        Span { range: self.range.union(other.range), id: self.id }
    }

    /// The span of `range` within the source `id`.
    pub fn new(range: ByteRange, id: SourceId) -> (span: Span)
        ensures
            span == (Span { range, id }),
    {
        Span { range, id }
    }

    /// The sentinel span.
    pub fn null() -> (span: Span)
        ensures
            span == Span::null_span(),
            span.is_null(),
    {
        Span { range: ByteRange { start: 0, end: 0 }, id: SourceId(0) }
    }

    /// Joins two spans of one source file into the smallest span that
    /// covers both.
    pub fn join(&self, other: Span) -> (joined: Span)
        requires
            self.id == other.id,
        ensures
            joined == self.union(other),
            joined.id == other.id,
    {
        Span { range: self.range.join(other.range), id: self.id }
    }
}

/// The union of two spans of one source file does not depend on their
/// order: either way it runs from the smaller start to the larger end.
pub proof fn lemma_union_commutes(first: Span, second: Span)
    requires
        first.id == second.id,
    ensures
        first.union(second) == second.union(first),
        first.union(second).id == first.id,
        first.union(second).range.start == vstd::math::min(
            first.range.start as int,
            second.range.start as int,
        ),
        first.union(second).range.end == vstd::math::max(
            first.range.end as int,
            second.range.end as int,
        ),
{
}

} // verus!
