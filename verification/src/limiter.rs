//! The rate limiter: a cooldown period kept against the system's monotonic clock.
//!
//! Every operation comes in two forms. The form whose name ends in `_at`
//! takes the present moment as an argument and says exactly what happens at
//! that moment. The plain form reads the clock and then does the same; what
//! the clock will say cannot be known beforehand, so its contract states what
//! holds whatever the reading was.

use vstd::prelude::*;
use crate::clock::Clock;
use crate::model::LimiterState;
use crate::time::{ran_with, runs_with, Duration, Instant};

verus! {

/// The point on the timeline that an optional instant stands for.
pub open spec fn moment(t: Option<Instant>) -> Option<nat> {
    match t {
        Some(t) => Some(t@),
        None => None,
    }
}

/// What a call of `try_run` made at `now` gives: the limiter advances, and the
/// call succeeds where the limiter was open and otherwise fails with the wait
/// that is left until the deadline.
pub open spec fn try_run_outcome(
    pre: LimiterState,
    now: nat,
    res: Result<(), Duration>,
    post: LimiterState,
) -> bool {
    &&& post == pre.advance(now)
    &&& match res {
        Ok(_) => pre.open_at(now),
        Err(wait) => !pre.open_at(now) && wait@ == pre.remaining_at(now),
    }
}

/// Allows to run an action at most once per cooldown period.
///
/// A limiter reads time from a clock of its own, whose timeline begins when
/// the limiter is created: the instants that it hands out, and those that it
/// is handed, are points on that timeline.
#[derive(Debug)]
pub struct RateLimiter {
    cooldown: Duration,
    start: Option<Instant>,
    clock: Clock,
}

impl View for RateLimiter {
    type V = LimiterState;

    closed spec fn view(&self) -> LimiterState {
        LimiterState { cooldown: self.cooldown@, start: moment(self.start) }
    }
}

impl Clone for RateLimiter {
    /// A second limiter in the same state, on the same clock.
    fn clone(&self) -> (copy: RateLimiter)
        ensures
            copy@ == self@,
    {
        proof {
            use_type_invariant(self);
        }
        RateLimiter { cooldown: self.cooldown, start: self.start, clock: self.clock }
    }
}

impl RateLimiter {
    #[verifier::type_invariant]
    spec fn inv(self) -> bool {
        self@.wf()
    }

    /// Creates a cold rate limiter with the given cooldown period, which must
    /// not be empty.
    pub fn new(cooldown: Duration) -> (lim: RateLimiter)
        requires
            cooldown@ > 0,
        ensures
            lim@ == (LimiterState { cooldown: cooldown@, start: None }),
    {
        RateLimiter { cooldown, start: None, clock: Clock::new() }
    }

    /// Returns the cooldown period.
    pub fn cooldown_period(&self) -> (period: Duration)
        ensures
            period@ == self@.cooldown,
            period@ > 0,
    {
        proof {
            use_type_invariant(self);
        }
        self.cooldown
    }

    /// Returns the start of the current window, if the limiter is warm.
    pub fn window_start(&self) -> (start: Option<Instant>)
        ensures
            moment(start) == self@.start,
    {
        self.start
    }

    /// Begins a new window at `now`, whatever the limiter's state. Returns the
    /// start of the previous window if there was one.
    pub fn start_at(&mut self, now: Instant) -> (prev: Option<Instant>)
        ensures
            moment(prev) == old(self)@.start,
            final(self)@ == old(self)@.started(now@),
    {
        proof {
            use_type_invariant(&*self);
        }
        let prev = self.start;
        self.start = Some(now);
        prev
    }

    /// Begins a new window at the present moment, whatever the limiter's state.
    /// Returns the start of the previous window if there was one.
    pub fn start_now(&mut self) -> (prev: Option<Instant>)
        ensures
            moment(prev) == old(self)@.start,
            final(self)@.cooldown == old(self)@.cooldown,
            final(self)@.start matches Some(now) && old(self)@.admits(now),
    {
        let now = self.read_clock();
        self.start_at(now)
    }

    /// Whether the limiter is open at `now`.
    fn is_open_at(&self, now: Instant) -> (open: bool)
        ensures
            open == self@.open_at(now@),
    {
        match self.start {
            None => true,
            Some(start) => !now.is_before(start) && now.duration_since(start).as_nanos()
                >= self.cooldown.as_nanos(),
        }
    }

    /// The wait that is left at `now` on a warm limiter that is shut then.
    fn wait_at(&self, now: Instant) -> (wait: Duration)
        requires
            !self@.open_at(now@),
            self@.remaining_at(now@) <= u128::MAX,
        ensures
            wait@ == self@.remaining_at(now@),
    {
        let start = self.start.unwrap();
        if now.is_before(start) {
            start.duration_since(now).plus(self.cooldown)
        } else {
            self.cooldown.minus(now.duration_since(start))
        }
    }

    /// Runs `f` at `now` if the limiter is open then, and begins a new window at
    /// `now`. Otherwise fails with the wait that is left until the deadline,
    /// and leaves the limiter as it is.
    ///
    /// The wait must fit in a `Duration`. It always does where `now` is no
    /// earlier than the start of the current window, for then it is no longer
    /// than the cooldown.
    ///
    /// Nothing is asked of `f` where the limiter is shut: there `f` is not run.
    pub fn try_run_at(&mut self, now: Instant, f: impl FnOnce()) -> (res: Result<(), Duration>)
        requires
            old(self)@.open_at(now@) || old(self)@.remaining_at(now@) <= u128::MAX,
            old(self)@.open_at(now@) ==> f.requires(()),
        ensures
            try_run_outcome(old(self)@, now@, res, final(self)@),
            res is Ok ==> f.ensures((), ()),
    {
        proof {
            use_type_invariant(&*self);
        }
        if self.is_open_at(now) {
            f();
            self.start = Some(now);
            Ok(())
        } else {
            Err(self.wait_at(now))
        }
    }

    /// Runs `f` if the cooldown period has elapsed, and begins a new window.
    /// Otherwise fails with the wait that is left.
    ///
    /// The first call succeeds at once and starts the limiter; its window begins
    /// when `f` has returned.
    pub fn try_run(&mut self, f: impl FnOnce()) -> (res: Result<(), Duration>)
        requires
            f.requires(()),
        ensures
            exists|now: nat|
                old(self)@.admits(now) && #[trigger] try_run_outcome(
                    old(self)@,
                    now,
                    res,
                    final(self)@,
                ),
            old(self)@.cold() ==> res is Ok,
            res is Ok ==> f.ensures((), ()),
    {
        match self.start {
            None => {
                f();
                let now = self.read_clock();
                self.start_at(now);
                let res = Ok(());
                assert(try_run_outcome(old(self)@, now@, res, self@));
                res
            },
            Some(_) => {
                let now = self.read_clock();
                proof {
                    self.cooldown.lemma_view_fits();
                }
                self.try_run_at(now, f)
            },
        }
    }

    /// Runs `f` at `now` if the limiter is open then, and begins a new window at
    /// `now`. Otherwise does nothing.
    ///
    /// Nothing is asked of `f` where the limiter is shut: there `f` is not run.
    pub fn run_at(&mut self, now: Instant, f: impl FnOnce())
        requires
            old(self)@.open_at(now@) ==> f.requires(()),
        ensures
            final(self)@ == old(self)@.advance(now@),
            old(self)@.open_at(now@) ==> f.ensures((), ()),
    {
        proof {
            use_type_invariant(&*self);
        }
        if self.is_open_at(now) {
            f();
            self.start = Some(now);
        }
    }

    /// Runs `f` if the cooldown period has elapsed. Otherwise does nothing.
    ///
    /// The first call succeeds at once and starts the limiter.
    pub fn run(&mut self, f: impl FnOnce())
        requires
            f.requires(()),
        ensures
            exists|now: nat|
                old(self)@.admits(now) && final(self)@ == #[trigger] old(self)@.advance(now) && (
                old(self)@.open_at(now) ==> f.ensures((), ())),
            old(self)@.cold() ==> f.ensures((), ()),
    {
        let res = self.try_run(f);
        proof {
            let now = choose|now: nat|
                old(self)@.admits(now) && #[trigger] try_run_outcome(old(self)@, now, res, self@);
            assert(self@ == old(self)@.advance(now));
        }
    }

    /// On a cold limiter, begins a window at `now` and does not run `f`. On a
    /// warm limiter, runs `f` on the time elapsed since the window began if that
    /// is no less than the cooldown, and begins a new window at `now`;
    /// otherwise does nothing.
    ///
    /// Nothing is asked of `f` where the limiter is cold or the cooldown has not
    /// elapsed: there `f` is not run.
    pub fn run_with_elapsed_at<F: FnOnce(Duration)>(&mut self, now: Instant, f: F)
        requires
            old(self)@.reports_at(now@) ==> runs_with(f, old(self)@.elapsed_at(now@)),
        ensures
            final(self)@ == old(self)@.advance(now@),
            old(self)@.reports_at(now@) ==> ran_with(f, old(self)@.elapsed_at(now@)),
    {
        proof {
            use_type_invariant(&*self);
        }
        match self.start {
            None => {
                self.start = Some(now);
            },
            Some(start) => {
                if self.is_open_at(now) {
                    f(now.duration_since(start));
                    self.start = Some(now);
                }
            },
        }
    }

    /// On a cold limiter, begins a window at the present moment and does not run
    /// `f`. On a warm limiter, runs `f` on the time elapsed since the window
    /// began if that is no less than the cooldown, and begins a new window;
    /// otherwise does nothing.
    ///
    /// Nothing is asked of `f` where the limiter is cold: there `f` is not run.
    pub fn run_with_elapsed<F: FnOnce(Duration)>(&mut self, f: F)
        requires
            !old(self)@.cold() ==> forall|elapsed: int|
                elapsed >= old(self)@.cooldown ==> #[trigger] runs_with(f, elapsed),
        ensures
            exists|now: nat|
                old(self)@.admits(now) && final(self)@ == #[trigger] old(self)@.advance(now) && (
                old(self)@.reports_at(now) ==> ran_with(f, old(self)@.elapsed_at(now))),
    {
        let now = self.read_clock();
        self.run_with_elapsed_at(now, f);
    }

    /// Reads the clock, never earlier than the start of the current window.
    fn read_clock(&self) -> (now: Instant)
        ensures
            self@.admits(now@),
    {
        match self.start {
            Some(start) => self.clock.now_not_before(start),
            None => self.clock.now(),
        }
    }
}

} // verus!
