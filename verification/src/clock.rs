//! The system's monotonic clock, read as a point on a timeline of its own.

use vstd::prelude::*;
use crate::time::{Duration, Instant};

verus! {

/// A reading of the system's monotonic clock; nothing of its contents is
/// visible to proofs.
#[verifier::external_type_specification]
#[verifier::external_body]
pub struct ExSystemInstant(std::time::Instant);

/// `std::time::Instant::now` reads the system's monotonic clock. The reading
/// depends on when the call is made, so nothing is claimed of it.
pub assume_specification[ std::time::Instant::now ]() -> (t: std::time::Instant);

/// `std::time::Instant::saturating_duration_since` gives the time that passed
/// from `earlier` to `t`, or an empty span where `earlier` is the later one.
/// Nothing is claimed of the span.
pub assume_specification[ std::time::Instant::saturating_duration_since ](
    t: &std::time::Instant,
    earlier: std::time::Instant,
) -> (d: std::time::Duration);

/// `std::time::Duration::as_nanos` counts the nanoseconds in a span. Nothing
/// is claimed of the count.
pub assume_specification[ std::time::Duration::as_nanos ](d: &std::time::Duration) -> (n: u128);

/// A monotonic clock whose timeline begins when the clock is made.
#[derive(Clone, Copy, Debug)]
pub(crate) struct Clock {
    origin: std::time::Instant,
}

impl Clock {
    /// A clock whose origin is the moment of this call.
    pub(crate) fn new() -> (clock: Clock) {
        Clock { origin: std::time::Instant::now() }
    }

    /// The present moment on this clock's timeline.
    pub(crate) fn now(&self) -> (now: Instant) {
        let reading = std::time::Instant::now();
        let passed = reading.saturating_duration_since(self.origin);
        Instant::after_origin(Duration::from_nanos(passed.as_nanos()))
    }

    /// The present moment, or `floor` should the clock read earlier than
    /// that: time handed out this way never runs backwards past `floor`.
    pub(crate) fn now_not_before(&self, floor: Instant) -> (now: Instant)
        ensures
            floor@ <= now@,
    {
        self.now().not_before(floor)
    }
}

} // verus!
