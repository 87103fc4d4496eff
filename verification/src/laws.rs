//! Laws of the state machine, proved over the transitions of `model`: what
//! the scheduler selects, what a reset settles into, and what a tick does
//! while frozen, after thawing, and across a suspend gap.

use crate::model::{
    activity_gap, cleared, recomputed, reset, sat_add, select_next, tick, tick_delta, winner,
    DaemonModel, TimerSlot, TrackingModel, UNFREEZE_WINDOW_MS,
};
use crate::model;
use vstd::prelude::*;

verus! {

/// Selection soundness law: on any catalog with at least one timer, at any
/// elapsed value, the scheduling engine selects an index inside the catalog
/// and sets the deadline at or past the elapsed value (the adjusted wait,
/// a natural number, is never negative).
pub proof fn lemma_select_next_sound(m: DaemonModel)
    requires
        m.timers.len() >= 1,
        m.elapsed <= u64::MAX,
    ensures
        select_next(m).next_timer matches Option::Some(w) && 0 <= w < m.timers.len(),
        select_next(m).next_timer_at >= m.elapsed,
{
    let s = recomputed(m.timers, m.elapsed);
    model::lemma_winner_in_range(s);
}

/// Reset idempotence law: a second reset right after a first leaves the
/// state exactly as the first did.
pub proof fn lemma_reset_idempotent(m: DaemonModel)
    ensures
        reset(reset(m)) == reset(m),
{
    let mc = DaemonModel { elapsed: 0, timers: cleared(m.timers), ..m };
    let m1 = select_next(mc);
    let mc2 = DaemonModel { elapsed: 0, timers: cleared(m1.timers), ..m1 };
    let s = recomputed(mc.timers, 0);
    let s2 = recomputed(mc2.timers, 0);
    assert(mc.elapsed == 0 && mc.timers == cleared(m.timers));
    assert(recomputed(mc.timers, mc.elapsed) == s);
    if s.len() == 0 {
        assert(m1.timers == s);
    } else {
        let w = winner(s);
        assert(m1.timers == s.update(
            w,
            TimerSlot { prompts: sat_add(s[w].prompts, 1), ..s[w] },
        ));
        model::lemma_winner_in_range(s);
    }
    assert(m1.timers.len() == s.len());
    assert forall|i: int| 0 <= i < s.len() implies s2[i] == s[i] by {
        assert(m1.timers[i].cfg == m.timers[i].cfg);
        assert(cleared(m1.timers)[i].cfg == m.timers[i].cfg);
        assert(cleared(m1.timers)[i].prompts == 0);
        assert(cleared(m.timers)[i].cfg == m.timers[i].cfg);
        assert(cleared(m.timers)[i].prompts == 0);
    }
    assert(s2 =~= s);
    assert(select_next(mc2) =~= m1);
}

/// Freeze transparency law, first half: a tick that finds the clock frozen
/// and leaves it frozen (idleness at or past the thaw window), with neither
/// a suspend gap nor an inactivity reset, never changes the elapsed time.
pub proof fn lemma_frozen_tick_keeps_elapsed(
    m: DaemonModel,
    tr: TrackingModel,
    now_ms: nat,
    now_unix: nat,
)
    requires
        m.tracking == Option::Some(tr),
        m.is_frozen,
        tick_delta(m, now_ms) < tr.reset_after,
        activity_gap(m.last_input, now_unix) >= UNFREEZE_WINDOW_MS,
        activity_gap(m.last_input, now_unix) < tr.reset_after,
    ensures
        tick(m, now_ms, now_unix).0.elapsed == m.elapsed,
        tick(m, now_ms, now_unix).0.is_frozen,
{
}

/// Freeze transparency law, second half: the tick that thaws the clock
/// (fresh input inside the thaw window) resumes advancing from exactly the
/// elapsed value the freeze preserved.
pub proof fn lemma_thawing_tick_resumes(
    m: DaemonModel,
    tr: TrackingModel,
    now_ms: nat,
    now_unix: nat,
)
    requires
        m.tracking == Option::Some(tr),
        m.is_frozen,
        m.is_enabled,
        tick_delta(m, now_ms) < tr.reset_after,
        activity_gap(m.last_input, now_unix) < UNFREEZE_WINDOW_MS,
        activity_gap(m.last_input, now_unix) < tr.reset_after,
    ensures
        !tick(m, now_ms, now_unix).0.is_frozen,
        tick(m, now_ms, now_unix).0.elapsed == sat_add(m.elapsed, tick_delta(m, now_ms)),
{
}

/// Toggle law: while a client has toggled the scheduler off (and no
/// activity tracking is configured to reset it), ticking never moves the
/// elapsed clock.
pub proof fn lemma_disabled_tick_keeps_elapsed(m: DaemonModel, now_ms: nat, now_unix: nat)
    requires
        !m.is_enabled,
        m.tracking is None,
    ensures
        tick(m, now_ms, now_unix).0.elapsed == m.elapsed,
        tick(m, now_ms, now_unix).0.is_enabled == m.is_enabled,
{
}

/// Suspend-gap law: a single tick whose delta reaches the inactivity-reset
/// threshold while time stands credited performs exactly the full reset --
/// the elapsed clock reads zero afterwards, the gap is never credited, and
/// no timer fires on that tick.
pub proof fn lemma_suspend_gap_resets(
    m: DaemonModel,
    tr: TrackingModel,
    now_ms: nat,
    now_unix: nat,
)
    requires
        m.tracking == Option::Some(tr),
        tick_delta(m, now_ms) >= tr.reset_after,
        m.elapsed > 0,
    ensures
        tick(m, now_ms, now_unix).0 == reset(DaemonModel { last_update: now_ms, ..m }),
        tick(m, now_ms, now_unix).0.elapsed == 0,
        tick(m, now_ms, now_unix).1 is None,
{
}

/// A full reset always lands on a zero clock with every prompt counter
/// zeroed but the firing just scheduled counted once: the selected timer's
/// counter reads one, every other reads zero.
pub proof fn lemma_reset_state(m: DaemonModel)
    requires
        m.timers.len() >= 1,
    ensures
        reset(m).elapsed == 0,
        reset(m).timers.len() == m.timers.len(),
        reset(m).next_timer matches Option::Some(w) && 0 <= w < m.timers.len() && forall|i: int|
            0 <= i < m.timers.len() ==> reset(m).timers[i].prompts == (if i == w {
                1nat
            } else {
                0nat
            }),
        reset(m).is_enabled == m.is_enabled,
        reset(m).is_frozen == m.is_frozen,
{
    let mc = DaemonModel { elapsed: 0, timers: cleared(m.timers), ..m };
    let s = recomputed(mc.timers, 0);
    model::lemma_winner_in_range(s);
}

/// The decline multiplier applied at a reset starts over: the wait the
/// reset schedules is the raw wait of the selected timer, undeclined.
pub proof fn lemma_reset_schedules_raw_wait(m: DaemonModel)
    requires
        m.timers.len() >= 1,
    ensures
        reset(m).next_timer matches Option::Some(w) && reset(m).next_timer_at == sat_add(
            0,
            model::raw_time_left(m.timers[w].cfg, 0),
        ),
{
    let mc = DaemonModel { elapsed: 0, timers: cleared(m.timers), ..m };
    let s = recomputed(mc.timers, 0);
    model::lemma_winner_in_range(s);
}

} // verus!
