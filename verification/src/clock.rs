//! Time as the state machines see it: plain counts of nanoseconds.

use vstd::prelude::*;

verus! {

pub const NANOS_PER_SEC: u128 = 1_000_000_000;

pub const NANOS_PER_MILLI: u128 = 1_000_000;

/// A length of time, in nanoseconds.
#[derive(Clone, Copy, Debug, PartialEq, Eq, Structural)]
pub struct Span {
    pub nanos: u128,
}

/// A reading of a monotonic clock: the nanoseconds that have passed since an
/// origin that the reader of the clock picked once.
#[derive(Clone, Copy, Debug, PartialEq, Eq, Structural)]
pub struct Moment {
    pub nanos: u128,
}

impl Span {
    pub fn from_secs(secs: u64) -> (span: Span)
        ensures
            span.nanos == secs * NANOS_PER_SEC,
    {
        Span { nanos: secs as u128 * NANOS_PER_SEC }
    }

    pub fn from_millis(millis: u64) -> (span: Span)
        ensures
            span.nanos == millis * NANOS_PER_MILLI,
    {
        Span { nanos: millis as u128 * NANOS_PER_MILLI }
    }

    /// Whether this span is strictly longer than `other`.
    pub fn exceeds(self, other: Span) -> (longer: bool)
        ensures
            longer == (self.nanos > other.nanos),
    {
        self.nanos > other.nanos
    }
}

impl Moment {
    /// The time that passed between `earlier` and `self`; zero where
    /// `earlier` is in fact the later of the two.
    pub open spec fn elapsed_since(self, earlier: Moment) -> Span {
        if self.nanos >= earlier.nanos {
            Span { nanos: (self.nanos - earlier.nanos) as u128 }
        } else {
            Span { nanos: 0 }
        }
    }

    pub fn since(self, earlier: Moment) -> (span: Span)
        ensures
            span == self.elapsed_since(earlier),
    {
        if self.nanos >= earlier.nanos {
            Span { nanos: self.nanos - earlier.nanos }
        } else {
            Span { nanos: 0 }
        }
    }

    /// Whether this reading is strictly later than `other`.
    pub fn is_after(self, other: Moment) -> (later: bool)
        ensures
            later == (self.nanos > other.nanos),
    {
        self.nanos > other.nanos
    }
}

} // verus!
