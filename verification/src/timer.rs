//! A timer that reports how long it has run to a callback, once.

use vstd::prelude::*;
use crate::clock::Clock;
use crate::time::{ran_with, runs_with, Duration, Instant};

verus! {

/// Measures the time from its start to its stop and hands it to a callback.
///
/// Stopping consumes the timer, so the callback is invoked at most once.
pub struct Timer<F: FnOnce(Duration)> {
    clock: Clock,
    started: Instant,
    on_stop: F,
}

impl<F: FnOnce(Duration)> Timer<F> {
    /// The moment at which the timer started.
    pub closed spec fn started(&self) -> nat {
        self.started@
    }

    /// The callback that the timer holds.
    pub closed spec fn callback(&self) -> F {
        self.on_stop
    }

    /// A timer that started at `started`. The callback is kept, not invoked.
    pub fn start_at(started: Instant, on_stop: F) -> (timer: Timer<F>)
        ensures
            timer.started() == started@,
            timer.callback() == on_stop,
    {
        Timer { clock: Clock::new(), started, on_stop }
    }

    /// A timer that starts at the present moment. The callback is kept, not
    /// invoked.
    pub fn start(on_stop: F) -> (timer: Timer<F>)
        ensures
            timer.callback() == on_stop,
    {
        let clock = Clock::new();
        let started = clock.now();
        Timer { clock, started, on_stop }
    }

    /// Stops the timer at `now` and invokes the callback on the time that
    /// passed since the start.
    pub fn stop_at(self, now: Instant)
        requires
            self.started() <= now@,
            runs_with(self.callback(), now@ - self.started()),
        ensures
            ran_with(self.callback(), now@ - self.started()),
    {
        let elapsed = now.duration_since(self.started);
        let on_stop = self.on_stop;
        on_stop(elapsed);
    }

    /// Stops the timer at the present moment and invokes the callback on the
    /// time that passed since the start.
    pub fn stop(self)
        requires
            forall|elapsed: int| 0 <= elapsed ==> #[trigger] runs_with(self.callback(), elapsed),
        ensures
            exists|elapsed: int| 0 <= elapsed && #[trigger] ran_with(self.callback(), elapsed),
    {
        let now = self.clock.now_not_before(self.started);
        assert(runs_with(self.callback(), now@ - self.started()));
        self.stop_at(now);
    }
}

} // verus!
