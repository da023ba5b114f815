//! What holds of a limiter at every moment.

use vstd::prelude::*;
use crate::model::LimiterState;

verus! {

/// A cold limiter is open at every moment, and the call that finds it so begins
/// the limiter's first window at that moment.
pub proof fn law_cold_limiter_is_open(g: LimiterState, now: nat)
    requires
        g.cold(),
    ensures
        g.open_at(now),
        g.advance(now) == g.started(now),
{
}

/// On a cold limiter a call that reports the elapsed time does not run its
/// action: it only begins the first window.
pub proof fn law_cold_limiter_reports_nothing(g: LimiterState, now: nat)
    requires
        g.cold(),
    ensures
        !g.reports_at(now),
        g.advance(now) == g.started(now),
        !g.advance(now).cold(),
{
}

/// On a warm limiter the call that reports the elapsed time runs its action at
/// exactly the moments at which a plain call does, and what it reports is no
/// less than the cooldown.
pub proof fn law_warm_limiter_reports_when_open(g: LimiterState, now: nat)
    requires
        !g.cold(),
    ensures
        g.reports_at(now) <==> g.open_at(now),
        g.reports_at(now) ==> g.elapsed_at(now) >= g.cooldown,
{
}

/// A call that finds the limiter open begins a window at the moment of the
/// call, not at the deadline that has passed: the next deadline lies a full
/// cooldown after the call.
pub proof fn law_window_begins_at_call(g: LimiterState, now: nat)
    requires
        g.open_at(now),
    ensures
        g.advance(now).start == Some(now),
        g.advance(now).deadline() == now + g.cooldown,
        g.advance(now).cooldown == g.cooldown,
{
}

/// A call that finds the limiter shut leaves it as it is.
pub proof fn law_shut_limiter_is_unchanged(g: LimiterState, now: nat)
    requires
        !g.open_at(now),
    ensures
        g.advance(now) == g,
{
}

/// While a warm limiter is shut, the wait that is left is the distance to the
/// deadline: more than nothing, and no more than the cooldown.
pub proof fn law_wait_is_distance_to_deadline(g: LimiterState, now: nat)
    requires
        !g.cold(),
        g.admits(now),
        !g.open_at(now),
    ensures
        now + g.remaining_at(now) == g.deadline(),
        0 < g.remaining_at(now) <= g.cooldown,
        g.remaining_at(now) + g.elapsed_at(now) == g.cooldown,
{
}

/// The wait that is left shrinks by as much as time advances, so it is
/// strictly smaller at the later of two moments.
pub proof fn law_wait_counts_down(g: LimiterState, earlier: nat, later: nat)
    requires
        !g.cold(),
        earlier < later,
    ensures
        g.remaining_at(earlier) - g.remaining_at(later) == later - earlier,
        g.remaining_at(later) < g.remaining_at(earlier),
{
}

/// A warm limiter is open from its deadline on and at no moment before it.
pub proof fn law_open_from_deadline(g: LimiterState, now: nat)
    requires
        !g.cold(),
    ensures
        g.open_at(now) <==> now >= g.deadline(),
        g.open_at(now) <==> g.remaining_at(now) <= 0,
{
}

} // verus!
