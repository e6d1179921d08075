//! Byte spans into source text, used to locate syntax elements.

use vstd::prelude::*;

verus! {

/// A byte range into a source file, with `start <= end`.
#[derive(Clone, Copy, PartialEq, Eq, Structural, Debug)]
pub struct Span {
    /// The byte offset where the span starts.
    pub start: usize,
    /// The byte offset one past where the span ends.
    pub end: usize,
}

impl Span {
    /// A span is well-formed when it does not end before it starts.
    pub open spec fn wf(self) -> bool {
        self.start <= self.end
    }

    /// Construct a new span.
    pub fn new(start: usize, end: usize) -> (s: Span)
        requires
            start <= end,
        ensures
            s == (Span { start, end }),
            s.wf(),
    {
        Span { start, end }
    }

    /// The smallest span covering both `self` and `other`.
    pub open spec fn spec_join(self, other: Span) -> Span {
        Span {
            start: if self.start <= other.start {
                self.start
            } else {
                other.start
            },
            end: if self.end >= other.end {
                self.end
            } else {
                other.end
            },
        }
    }

    /// Join two spans into the smallest span covering both.
    pub fn join(self, other: Span) -> (s: Span)
        ensures
            s == self.spec_join(other),
            self.wf() && other.wf() ==> s.wf(),
    {
        Span {
            start: if self.start <= other.start {
                self.start
            } else {
                other.start
            },
            end: if self.end >= other.end {
                self.end
            } else {
                other.end
            },
        }
    }

    /// The number of bytes the span covers.
    pub fn len(self) -> (n: usize)
        requires
            self.wf(),
        ensures
            n == self.end - self.start,
    {
        self.end - self.start
    }
}

} // verus!
