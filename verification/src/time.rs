//! Spans and points of time, both counted in whole nanoseconds.

use vstd::prelude::*;

verus! {

/// Nanoseconds in one millisecond.
pub const NANOS_PER_MILLI: u128 = 1_000_000;

/// A span of time in whole nanoseconds. Its view is that count.
#[derive(Clone, Copy, Debug, PartialEq, Eq, Structural, PartialOrd, Ord, Hash)]
pub struct Duration {
    nanos: u128,
}

impl View for Duration {
    type V = nat;

    closed spec fn view(&self) -> nat {
        self.nanos as nat
    }
}

impl Duration {
    /// A span's count of nanoseconds fits in 128 bits.
    pub proof fn lemma_view_fits(self)
        ensures
            self@ <= u128::MAX,
    {
    }

    /// The span of `nanos` nanoseconds.
    pub fn from_nanos(nanos: u128) -> (d: Duration)
        ensures
            d@ == nanos,
    {
        Duration { nanos }
    }

    /// The span of `millis` milliseconds.
    pub fn from_millis(millis: u64) -> (d: Duration)
        ensures
            d@ == millis * NANOS_PER_MILLI,
    {
        let wide: u128 = millis as u128;
        Duration { nanos: wide * NANOS_PER_MILLI }
    }

    /// The number of nanoseconds in the span.
    pub fn as_nanos(&self) -> (n: u128)
        ensures
            n == self@,
    {
        self.nanos
    }

    /// Whether the span is empty.
    pub fn is_zero(&self) -> (b: bool)
        ensures
            b == (self@ == 0),
    {
        self.nanos == 0
    }

    /// This span and `more`, one after the other.
    pub fn plus(&self, more: Duration) -> (d: Duration)
        requires
            self@ + more@ <= u128::MAX,
        ensures
            d@ == self@ + more@,
    {
        Duration { nanos: self.nanos + more.nanos }
    }

    /// What is left of this span once `spent` of it has passed.
    pub fn minus(&self, spent: Duration) -> (d: Duration)
        requires
            spent@ <= self@,
        ensures
            d@ == self@ - spent@,
    {
        Duration { nanos: self.nanos - spent.nanos }
    }
}

/// Whether `f` has been run on a span of `elapsed` nanoseconds.
pub open spec fn ran_with<F: FnOnce(Duration)>(f: F, elapsed: int) -> bool {
    exists|d: Duration| d@ == elapsed && call_ensures(f, (d,), ())
}

/// Whether `f` may be run on a span of `elapsed` nanoseconds.
pub open spec fn runs_with<F: FnOnce(Duration)>(f: F, elapsed: int) -> bool {
    forall|d: Duration| d@ == elapsed ==> call_requires(f, (d,))
}

/// A point on a monotonic timeline: the nanoseconds that lie between the
/// timeline's origin and the point. Its view is that count.
#[derive(Clone, Copy, Debug, PartialEq, Eq, Structural, PartialOrd, Ord, Hash)]
pub struct Instant {
    nanos: u128,
}

impl View for Instant {
    type V = nat;

    closed spec fn view(&self) -> nat {
        self.nanos as nat
    }
}

impl Instant {
    /// The point that lies `offset` after the origin.
    pub fn after_origin(offset: Duration) -> (t: Instant)
        ensures
            t@ == offset@,
    {
        Instant { nanos: offset.nanos }
    }

    /// Whether this point lies strictly before `other`.
    pub fn is_before(&self, other: Instant) -> (b: bool)
        ensures
            b == (self@ < other@),
    {
        self.nanos < other.nanos
    }

    /// This point, or `floor` where this point lies before it: the later of
    /// the two.
    pub fn not_before(self, floor: Instant) -> (t: Instant)
        ensures
            t@ == if self@ < floor@ { floor@ } else { self@ },
    {
        if self.nanos < floor.nanos {
            floor
        } else {
            self
        }
    }

    /// The span from `earlier` to this point.
    pub fn duration_since(&self, earlier: Instant) -> (d: Duration)
        requires
            earlier@ <= self@,
        ensures
            d@ == self@ - earlier@,
    {
        Duration { nanos: self.nanos - earlier.nanos }
    }
}

} // verus!
