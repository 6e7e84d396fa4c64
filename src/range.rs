//! Intervals over receipt timestamps, with every combination of inclusive,
//! exclusive and missing bounds.
use vstd::prelude::*;

verus! {

/// One end of a timestamp interval.
#[derive(Clone, Copy, Debug, PartialEq, Eq, Structural)]
pub enum TimestampBound {
    Included(u64),
    Excluded(u64),
    Unbounded,
}

/// A timestamp interval `start .. end`, each end bounded as it says.
#[derive(Clone, Copy, Debug, PartialEq, Eq, Structural)]
pub struct TimestampRange {
    pub start: TimestampBound,
    pub end: TimestampBound,
}

/// `t` lies on the inner side of the lower bound `b`.
pub open spec fn above_start(b: TimestampBound, t: u64) -> bool {
    match b {
        TimestampBound::Included(s) => s <= t,
        TimestampBound::Excluded(s) => s < t,
        TimestampBound::Unbounded => true,
    }
}

/// `t` lies on the inner side of the upper bound `b`.
pub open spec fn below_end(b: TimestampBound, t: u64) -> bool {
    match b {
        TimestampBound::Included(e) => t <= e,
        TimestampBound::Excluded(e) => t < e,
        TimestampBound::Unbounded => true,
    }
}

impl TimestampRange {
    /// A timestamp is in the interval iff it satisfies both bounds.
    pub open spec fn includes(self, t: u64) -> bool {
        above_start(self.start, t) && below_end(self.end, t)
    }

    pub fn new(start: TimestampBound, end: TimestampBound) -> (r: TimestampRange)
        ensures
            r.start == start,
            r.end == end,
    {
        TimestampRange { start, end }
    }

    /// `..`
    pub fn full() -> (r: TimestampRange)
        ensures
            forall|t: u64| r.includes(t),
    {
        TimestampRange { start: TimestampBound::Unbounded, end: TimestampBound::Unbounded }
    }

    /// `from..`
    pub fn starting_at(from: u64) -> (r: TimestampRange)
        ensures
            forall|t: u64| r.includes(t) == (from <= t),
    {
        TimestampRange { start: TimestampBound::Included(from), end: TimestampBound::Unbounded }
    }

    /// `..to`
    pub fn before(to: u64) -> (r: TimestampRange)
        ensures
            forall|t: u64| r.includes(t) == (t < to),
    {
        TimestampRange { start: TimestampBound::Unbounded, end: TimestampBound::Excluded(to) }
    }

    /// `..=to`
    pub fn up_to(to: u64) -> (r: TimestampRange)
        ensures
            forall|t: u64| r.includes(t) == (t <= to),
    {
        TimestampRange { start: TimestampBound::Unbounded, end: TimestampBound::Included(to) }
    }

    /// `from..to`
    pub fn between(from: u64, to: u64) -> (r: TimestampRange)
        ensures
            forall|t: u64| r.includes(t) == (from <= t && t < to),
    {
        TimestampRange { start: TimestampBound::Included(from), end: TimestampBound::Excluded(to) }
    }

    /// `from..=to`
    pub fn between_inclusive(from: u64, to: u64) -> (r: TimestampRange)
        ensures
            forall|t: u64| r.includes(t) == (from <= t && t <= to),
    {
        TimestampRange { start: TimestampBound::Included(from), end: TimestampBound::Included(to) }
    }

    pub fn contains(&self, t: u64) -> (r: bool)
        ensures
            r == self.includes(t),
    {
        let lower = match self.start {
            TimestampBound::Included(s) => s <= t,
            TimestampBound::Excluded(s) => s < t,
            TimestampBound::Unbounded => true,
        };
        let upper = match self.end {
            TimestampBound::Included(e) => t <= e,
            TimestampBound::Excluded(e) => t < e,
            TimestampBound::Unbounded => true,
        };
        lower && upper
    }
}

} // verus!
