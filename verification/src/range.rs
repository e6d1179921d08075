//! The range primitive: optional endpoint values, half-open or closed
//! limits, and the iteration contract over integer endpoints.

use crate::error::BorrowError;
use crate::error::VmError;
use crate::value::spec_option_readable;
use crate::value::spec_range_eq;
use crate::value::Value;
use vstd::prelude::*;

verus! {

/// The limits of a range.
#[derive(Debug, Clone, Copy, PartialEq, Eq, Structural, Hash)]
pub enum RangeLimits {
    /// A half-open range `..`.
    HalfOpen,
    /// A closed range `..=`.
    Closed,
}

/// The integers of the half-open interval `[s, e)`, in order; empty when
/// `s >= e`.
pub open spec fn spec_half_open_ints(s: i64, e: i64) -> Seq<i64> {
    Seq::new(
        if s <= e {
            (e - s) as nat
        } else {
            0
        },
        |i: int| (s + i) as i64,
    )
}

/// The integers of the closed interval `[s, e]`, in order; empty when
/// `s > e`.
pub open spec fn spec_closed_ints(s: i64, e: i64) -> Seq<i64> {
    Seq::new(
        if s <= e {
            (e - s + 1) as nat
        } else {
            0
        },
        |i: int| (s + i) as i64,
    )
}

/// An iterator over a range with integer endpoints: the only shapes a range
/// can be iterated in.
#[derive(Debug, PartialEq, Eq, Structural, Clone, Copy)]
pub enum RangeIter {
    /// A double-ended iterator over `[cur, end)`.
    HalfOpen {
        /// The next value the iterator will yield from the front.
        cur: i64,
        /// The exclusive upper endpoint.
        end: i64,
    },
    /// A double-ended iterator over `[cur, end]`; `done` marks exhaustion.
    Closed {
        /// The next value the iterator will yield from the front.
        cur: i64,
        /// The inclusive upper endpoint.
        end: i64,
        /// Whether the iterator has yielded its last value.
        done: bool,
    },
    /// A forward-only iterator over `[cur, ..`, unbounded above; advancing
    /// past the largest integer overflows by panic, matching host
    /// arithmetic, so its precondition excludes that step.
    From {
        /// The next value the iterator will yield.
        cur: i64,
    },
}

impl RangeIter {
    /// Well-formedness: the front cursor never passes the upper endpoint.
    pub open spec fn wf(self) -> bool {
        match self {
            RangeIter::HalfOpen { cur, end } => cur <= end,
            RangeIter::Closed { cur, end, done } => cur <= end,
            RangeIter::From { cur } => true,
        }
    }

    /// The values a bounded iterator has left to yield, front to back.
    /// An unbounded iterator has no finite remainder; it is excluded.
    pub open spec fn spec_remaining(self) -> Seq<i64> {
        match self {
            RangeIter::HalfOpen { cur, end } => spec_half_open_ints(cur, end),
            RangeIter::Closed { cur, end, done } => if done {
                Seq::<i64>::empty()
            } else {
                spec_closed_ints(cur, end)
            },
            RangeIter::From { cur } => Seq::<i64>::empty(),
        }
    }

    /// Yield the next value from the front.
    pub fn next(&mut self) -> (r: Option<i64>)
        requires
            old(self).wf(),
            *old(self) matches RangeIter::From { cur } ==> cur < i64::MAX,
        ensures
            final(self).wf(),
            match *old(self) {
                RangeIter::From { cur } => r == Some(cur) && *final(self) == (RangeIter::From {
                    cur: (cur + 1) as i64,
                }),
                _ => {
                    &&& !(*final(self) matches RangeIter::From { .. })
                    &&& if old(self).spec_remaining().len() == 0 {
                        r is None && *final(self) == *old(self)
                    } else {
                        r == Some(old(self).spec_remaining().first())
                            && final(self).spec_remaining()
                            == old(self).spec_remaining().drop_first()
                    }
                },
            },
    {
        match *self {
            RangeIter::HalfOpen { cur, end } => {
                if cur < end {
                    *self = RangeIter::HalfOpen { cur: cur + 1, end };
                    proof {
                        assert((*self).spec_remaining() =~= old(
                            self,
                        ).spec_remaining().drop_first());
                    }
                    Some(cur)
                } else {
                    None
                }
            },
            RangeIter::Closed { cur, end, done } => {
                if done {
                    None
                } else if cur < end {
                    *self = RangeIter::Closed { cur: cur + 1, end, done: false };
                    proof {
                        assert((*self).spec_remaining() =~= old(
                            self,
                        ).spec_remaining().drop_first());
                    }
                    Some(cur)
                } else {
                    *self = RangeIter::Closed { cur, end, done: true };
                    proof {
                        assert((*self).spec_remaining() =~= old(
                            self,
                        ).spec_remaining().drop_first());
                    }
                    Some(cur)
                }
            },
            RangeIter::From { cur } => {
                *self = RangeIter::From { cur: cur + 1 };
                Some(cur)
            },
        }
    }

    /// Yield the next value from the back; only bounded iterators are
    /// double-ended.
    pub fn next_back(&mut self) -> (r: Option<i64>)
        requires
            old(self).wf(),
            !(*old(self) matches RangeIter::From { .. }),
        ensures
            final(self).wf(),
            !(*final(self) matches RangeIter::From { .. }),
            if old(self).spec_remaining().len() == 0 {
                r is None && *final(self) == *old(self)
            } else {
                r == Some(old(self).spec_remaining().last())
                    && final(self).spec_remaining() == old(self).spec_remaining().drop_last()
            },
    {
        match *self {
            RangeIter::HalfOpen { cur, end } => {
                if cur < end {
                    *self = RangeIter::HalfOpen { cur, end: end - 1 };
                    proof {
                        assert((*self).spec_remaining() =~= old(
                            self,
                        ).spec_remaining().drop_last());
                    }
                    Some(end - 1)
                } else {
                    None
                }
            },
            RangeIter::Closed { cur, end, done } => {
                if done {
                    None
                } else if cur < end {
                    *self = RangeIter::Closed { cur, end: end - 1, done: false };
                    proof {
                        assert((*self).spec_remaining() =~= old(
                            self,
                        ).spec_remaining().drop_last());
                    }
                    Some(end)
                } else {
                    *self = RangeIter::Closed { cur, end, done: true };
                    proof {
                        assert((*self).spec_remaining() =~= old(
                            self,
                        ).spec_remaining().drop_last());
                    }
                    Some(cur)
                }
            },
            RangeIter::From { cur } => None,
        }
    }
}

/// Whether a range has one of the three endpoint shapes iteration is defined
/// for: two integer endpoints under either limit, or a half-open integer
/// start with no end.
pub open spec fn spec_iterable(r: Range) -> bool {
    match (r.limits, r.start, r.end) {
        (_, Some(Value::Integer(_)), Some(Value::Integer(_))) => true,
        (RangeLimits::HalfOpen, Some(Value::Integer(_)), None) => true,
        _ => false,
    }
}

/// A dynamic range value with optional endpoints.
#[derive(Debug)]
pub struct Range {
    /// The start value of the range.
    pub start: Option<Value>,
    /// The end value of the range.
    pub end: Option<Value>,
    /// The limits of the range.
    pub limits: RangeLimits,
}

impl Range {
    /// Construct a new range.
    pub fn new(start: Option<Value>, end: Option<Value>, limits: RangeLimits) -> (r: Range)
        ensures
            r == (Range { start, end, limits }),
    {
        Range { start, end, limits }
    }

    /// Coerce the range into an iterator.
    ///
    /// Iteration is defined for exactly three endpoint patterns: two integer
    /// endpoints under either limit, or a half-open integer start with no
    /// end. Every other shape fails with the VM panic "not an iterator".
    pub fn into_iterator(self) -> (r: Result<RangeIter, VmError>)
        ensures
            r matches Ok(_) <==> spec_iterable(self),
            match (self.limits, self.start, self.end) {
                (_, Some(Value::Integer(s)), Some(Value::Integer(e))) => {
                    &&& r matches Ok(it)
                    &&& it.wf()
                    &&& !(it matches RangeIter::From { .. })
                    &&& it.spec_remaining() == (match self.limits {
                        RangeLimits::HalfOpen => spec_half_open_ints(s, e),
                        RangeLimits::Closed => spec_closed_ints(s, e),
                    })
                },
                (RangeLimits::HalfOpen, Some(Value::Integer(s)), None) => r == Ok::<
                    RangeIter,
                    VmError,
                >(RangeIter::From { cur: s }),
                _ => r matches Err(e) && e matches VmError::Panic(m) && m@ == "not an iterator"@,
            },
    {
        match (self.limits, self.start, self.end) {
            (RangeLimits::HalfOpen, Some(Value::Integer(s)), Some(Value::Integer(e))) => {
                let it = if s <= e {
                    RangeIter::HalfOpen { cur: s, end: e }
                } else {
                    RangeIter::HalfOpen { cur: s, end: s }
                };
                proof {
                    assert(it.spec_remaining() =~= spec_half_open_ints(s, e));
                }
                Ok(it)
            },
            (RangeLimits::Closed, Some(Value::Integer(s)), Some(Value::Integer(e))) => {
                let it = if s <= e {
                    RangeIter::Closed { cur: s, end: e, done: false }
                } else {
                    RangeIter::Closed { cur: s, end: s, done: true }
                };
                proof {
                    assert(it.spec_remaining() =~= spec_closed_ints(s, e));
                }
                Ok(it)
            },
            (RangeLimits::HalfOpen, Some(Value::Integer(s)), None) => Ok(
                RangeIter::From { cur: s },
            ),
            _ => Err(VmError::Panic("not an iterator".to_owned())),
        }
    }

    /// Structural, non-protocol equality of two ranges: same limits and
    /// element-wise equal endpoints.
    ///
    /// Fails with a borrow error exactly where an endpoint cell that must be
    /// read is exclusively borrowed; fully readable endpoints always succeed.
    pub fn value_ptr_eq(a: &Range, b: &Range) -> (r: Result<bool, VmError>)
        ensures
            r matches Ok(eq) ==> eq == spec_range_eq(*a, *b),
            spec_option_readable(a.start) && spec_option_readable(a.end)
                && spec_option_readable(b.start) && spec_option_readable(b.end) ==> r matches Ok(
                _,
            ),
            r matches Err(e) ==> e matches VmError::Borrow(BorrowError),
        decreases *a,
    {
        if a.limits != b.limits {
            return Ok(false);
        }
        match Value::option_ptr_eq(&a.start, &b.start) {
            Ok(true) => {},
            Ok(false) => {
                return Ok(false);
            },
            Err(e) => {
                return Err(e);
            },
        }
        match Value::option_ptr_eq(&a.end, &b.end) {
            Ok(true) => {},
            Ok(false) => {
                return Ok(false);
            },
            Err(e) => {
                return Err(e);
            },
        }
        Ok(true)
    }
}

} // verus!
