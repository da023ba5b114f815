//! The limiter as a mathematical object: what it remembers, and what each call
//! does to it at a given moment.

use vstd::prelude::*;

verus! {

/// What a limiter remembers: its cooldown in nanoseconds, and the point at which
/// the current window began, if one ever began.
pub struct LimiterState {
    pub cooldown: nat,
    pub start: Option<nat>,
}

impl LimiterState {
    /// A limiter's cooldown is never empty.
    pub open spec fn wf(self) -> bool {
        self.cooldown > 0
    }

    /// A cold limiter has never begun a window.
    pub open spec fn cold(self) -> bool {
        self.start is None
    }

    /// Time does not run backwards: `now` is no earlier than the window's
    /// start.
    pub open spec fn admits(self, now: nat) -> bool {
        self.start matches Some(start) ==> start <= now
    }

    /// The limiter as it is once a window has begun at `now`.
    pub open spec fn started(self, now: nat) -> LimiterState {
        LimiterState { cooldown: self.cooldown, start: Some(now) }
    }

    /// The point at which the current window ends.
    pub open spec fn deadline(self) -> nat
        recommends
            !self.cold(),
    {
        self.start.unwrap() + self.cooldown
    }

    /// Whether the limiter lets an action through at `now`: a cold limiter always
    /// does, a warm one from its deadline on.
    pub open spec fn open_at(self, now: nat) -> bool {
        self.cold() || now >= self.deadline()
    }

    /// The wait that is left at `now` until the deadline.
    pub open spec fn remaining_at(self, now: nat) -> int
        recommends
            !self.cold(),
    {
        self.deadline() - now
    }

    /// The time that has passed at `now` since the window began.
    pub open spec fn elapsed_at(self, now: nat) -> int
        recommends
            !self.cold(),
    {
        now - self.start.unwrap()
    }

    /// Whether a call that reports the elapsed time runs its action at `now`:
    /// a cold limiter never does, a warm one once a full cooldown has passed.
    pub open spec fn reports_at(self, now: nat) -> bool {
        !self.cold() && self.elapsed_at(now) >= self.cooldown
    }

    /// The limiter after a call made at `now`: where the limiter was open, a new
    /// window begins at `now` itself, so that time past the deadline is not
    /// counted towards the next window; where it was shut, nothing changes.
    pub open spec fn advance(self, now: nat) -> LimiterState {
        if self.open_at(now) {
            self.started(now)
        } else {
            self
        }
    }
}

} // verus!
