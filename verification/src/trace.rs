//! Histories of calls on one limiter, and what holds of every such history.

use vstd::prelude::*;
use crate::model::LimiterState;

verus! {

/// The operations that a history can hold.
pub enum Op {
    /// `try_run` or `run`: the two treat the limiter and the action alike.
    Run,
    /// `run_with_elapsed`.
    RunWithElapsed,
    /// `start_now`.
    StartNow,
}

/// One call: an operation, and the moment at which it is made.
pub struct Call {
    pub op: Op,
    pub at: nat,
}

/// Whether `call`, made on a limiter in state `g`, runs its action.
pub open spec fn fires(g: LimiterState, call: Call) -> bool {
    match call.op {
        Op::Run => g.open_at(call.at),
        Op::RunWithElapsed => g.reports_at(call.at),
        Op::StartNow => false,
    }
}

/// The limiter's state after `call` has been made on a limiter in state `g`.
pub open spec fn step(g: LimiterState, call: Call) -> LimiterState {
    match call.op {
        Op::Run => g.advance(call.at),
        Op::RunWithElapsed => g.advance(call.at),
        Op::StartNow => g.started(call.at),
    }
}

/// The limiter's state after the first `k` calls of `calls`, made in turn on a
/// limiter that began in state `g`.
pub open spec fn state_after(g: LimiterState, calls: Seq<Call>, k: nat) -> LimiterState
    decreases k,
{
    if k == 0 {
        g
    } else {
        step(state_after(g, calls, (k - 1) as nat), calls[k - 1])
    }
}

/// Whether the call at index `k` of `calls` runs its action.
pub open spec fn fires_in(g: LimiterState, calls: Seq<Call>, k: int) -> bool
    recommends
        0 <= k < calls.len(),
{
    fires(state_after(g, calls, k as nat), calls[k])
}

/// Time does not run backwards in `calls`: no call is made before the start
/// of the window that `g` is in, and none before a call that precedes it.
pub open spec fn in_order(g: LimiterState, calls: Seq<Call>) -> bool {
    &&& forall|i: int| 0 <= i < calls.len() ==> g.admits(#[trigger] calls[i].at)
    &&& forall|i: int, j: int|
        0 <= i <= j < calls.len() ==> #[trigger] calls[i].at <= #[trigger] calls[j].at
}

/// No restart moves a window backwards: each `start_now` of `calls` is made
/// no earlier than the start of the window that the limiter is in then.
pub open spec fn never_rewinds(g: LimiterState, calls: Seq<Call>) -> bool {
    forall|k: int|
        0 <= k < calls.len() && (#[trigger] calls[k]).op is StartNow ==> state_after(
            g,
            calls,
            k as nat,
        ).admits(calls[k].at)
}

/// While time does not run backwards, no call of a history is made before the
/// start of the window that the limiter is in when the call's turn comes.
pub proof fn lemma_state_admits(g: LimiterState, calls: Seq<Call>, k: nat, m: int)
    requires
        in_order(g, calls),
        k <= m < calls.len(),
    ensures
        state_after(g, calls, k).admits(calls[m].at),
    decreases k,
{
    if k > 0 {
        lemma_state_admits(g, calls, (k - 1) as nat, m);
    }
}

/// While time does not run backwards, no restart moves a window backwards.
pub proof fn law_in_order_never_rewinds(g: LimiterState, calls: Seq<Call>)
    requires
        in_order(g, calls),
    ensures
        never_rewinds(g, calls),
{
    assert forall|k: int| 0 <= k < calls.len() && (#[trigger] calls[k]).op is StartNow implies state_after(
        g,
        calls,
        k as nat,
    ).admits(calls[k].at) by {
        lemma_state_admits(g, calls, k as nat, k);
    }
}

/// The cooldown is the same after any number of calls, whatever they are.
pub proof fn law_cooldown_is_constant(g: LimiterState, calls: Seq<Call>, k: nat)
    requires
        k <= calls.len(),
    ensures
        state_after(g, calls, k).cooldown == g.cooldown,
    decreases k,
{
    if k > 0 {
        law_cooldown_is_constant(g, calls, (k - 1) as nat);
    }
}

/// Well-formedness is kept by every call.
pub proof fn law_limiter_stays_well_formed(g: LimiterState, calls: Seq<Call>, k: nat)
    requires
        g.wf(),
        k <= calls.len(),
    ensures
        state_after(g, calls, k).wf(),
{
    law_cooldown_is_constant(g, calls, k);
}

/// A window's start, once set, stays set, and it only moves forward as long
/// as no restart moves it backwards: calls that run an action never do.
pub proof fn law_start_moves_forward(g: LimiterState, calls: Seq<Call>, i: nat, j: nat)
    requires
        never_rewinds(g, calls),
        i <= j <= calls.len(),
        !state_after(g, calls, i).cold(),
    ensures
        !state_after(g, calls, j).cold(),
        state_after(g, calls, i).start.unwrap() <= state_after(g, calls, j).start.unwrap(),
    decreases j,
{
    if i < j {
        law_start_moves_forward(g, calls, i, (j - 1) as nat);
        assert(calls[j - 1].op is StartNow ==> state_after(g, calls, (j - 1) as nat).admits(
            calls[j - 1].at,
        ));
    }
}

/// A call that runs its action leaves the limiter in a window that begins at
/// the moment of that call.
pub proof fn law_firing_starts_window(g: LimiterState, calls: Seq<Call>, k: int)
    requires
        0 <= k < calls.len(),
        fires_in(g, calls, k),
    ensures
        state_after(g, calls, (k + 1) as nat).start == Some(calls[k].at),
{
    assert(state_after(g, calls, (k + 1) as nat) == step(
        state_after(g, calls, k as nat),
        calls[k],
    ));
}

/// Any two calls of a history that both run their action lie at least one
/// cooldown apart, however late the second one is made and whatever calls lie
/// between them, as long as no restart between them moves a window backwards.
pub proof fn law_runs_are_spaced(g: LimiterState, calls: Seq<Call>, i: int, j: int)
    requires
        never_rewinds(g, calls),
        0 <= i < j < calls.len(),
        fires_in(g, calls, i),
        fires_in(g, calls, j),
    ensures
        calls[j].at - calls[i].at >= g.cooldown,
{
    law_firing_starts_window(g, calls, i);
    law_start_moves_forward(g, calls, (i + 1) as nat, j as nat);
    law_cooldown_is_constant(g, calls, j as nat);
}

/// In a history without restarts, any two calls that both run their action
/// lie at least one cooldown apart, in whatever order the moments of the
/// calls come.
pub proof fn law_runs_are_spaced_without_restart(
    g: LimiterState,
    calls: Seq<Call>,
    i: int,
    j: int,
)
    requires
        forall|k: int| 0 <= k < calls.len() ==> !((#[trigger] calls[k]).op is StartNow),
        0 <= i < j < calls.len(),
        fires_in(g, calls, i),
        fires_in(g, calls, j),
    ensures
        calls[j].at - calls[i].at >= g.cooldown,
{
    law_runs_are_spaced(g, calls, i, j);
}

/// While time does not run backwards, any two calls of a history that both
/// run their action lie at least one cooldown apart.
pub proof fn law_runs_are_spaced_in_order(g: LimiterState, calls: Seq<Call>, i: int, j: int)
    requires
        in_order(g, calls),
        0 <= i < j < calls.len(),
        fires_in(g, calls, i),
        fires_in(g, calls, j),
    ensures
        calls[j].at - calls[i].at >= g.cooldown,
{
    law_in_order_never_rewinds(g, calls);
    law_runs_are_spaced(g, calls, i, j);
}

} // verus!
