//! The mathematical model of the scheduler: ghost images of the timer
//! catalog and the daemon state, and the transition functions that the
//! executable code in `daemon` is proved to implement.
//!
//! All durations are in milliseconds and all wall-clock stamps in Unix
//! seconds, as everywhere in this crate.

use vstd::prelude::*;

verus! {

/// The immutable definition of one timer, as the scheduler sees it.
#[verifier::ext_equal]
pub struct TimerModel {
    /// Milliseconds between recurrences; positive in a valid catalog.
    pub interval: nat,
    /// Optional milliseconds before the first occurrence.
    pub initial_delay: Option<nat>,
    /// Decline factor in hundredths: 100 halves each successive wait.
    pub decline: nat,
}

/// The runtime state of one timer: its definition plus what the scheduler
/// tracks about it between resets.
#[verifier::ext_equal]
pub struct TimerSlot {
    /// Remaining milliseconds as of the last schedule recomputation.
    pub time_left: nat,
    /// Times this timer has been selected to fire since the last full
    /// reset, the startup selection included; drives the decline policy.
    pub prompts: nat,
    pub cfg: TimerModel,
}

/// The activity-tracking thresholds, when tracking is configured.
#[verifier::ext_equal]
pub struct TrackingModel {
    /// Freeze the clock once the user has been idle this long (ms).
    pub pause_after: nat,
    /// Fully reset once the user has been idle this long (ms).
    pub reset_after: nat,
}

/// The whole daemon state that the tick machine owns.
#[verifier::ext_equal]
pub struct DaemonModel {
    pub tracking: Option<TrackingModel>,
    /// Milliseconds of credited screen time since the last reset.
    pub elapsed: nat,
    /// Monotonic stamp (ms) of the previous tick.
    pub last_update: nat,
    /// The `elapsed` value at which the selected timer is due.
    pub next_timer_at: nat,
    /// Index of the timer selected to fire next, once one was selected.
    pub next_timer: Option<int>,
    pub timers: Seq<TimerSlot>,
    /// False after a client toggled the clock off.
    pub is_enabled: bool,
    /// True while the inactivity heuristic holds the clock still.
    pub is_frozen: bool,
    /// Unix seconds of the most recent known user input.
    pub last_input: nat,
}

/// Milliseconds of idleness below which a frozen clock thaws again.
pub const UNFREEZE_WINDOW_MS: u64 = 3000;

/// Addition that stops at the largest representable duration.
pub open spec fn sat_add(a: nat, b: nat) -> nat {
    if a + b > u64::MAX { u64::MAX as nat } else { a + b }
}

/// One application of the decline policy: multiply by 100/(100+decline),
/// rounding down.
pub open spec fn decay_step(wait: nat, decline: nat) -> nat {
    ((wait * 100) as int / (100 + decline) as int) as nat
}

/// The adjusted wait after `prompts` firings: the raw wait shrunk once per
/// firing. With `decline == 0` every step is the identity.
pub open spec fn decayed_wait(wait: nat, decline: nat, prompts: nat) -> nat
    decreases prompts,
{
    if prompts == 0 {
        wait
    } else {
        decay_step(decayed_wait(wait, decline, (prompts - 1) as nat), decline)
    }
}

/// The raw remaining time of one timer at a given elapsed value: time until
/// the initial delay ends while still inside it, otherwise time until the
/// next multiple of the interval, with the recurrence phase anchored at the
/// end of the delay if one was set.
pub open spec fn raw_time_left(cfg: TimerModel, elapsed: nat) -> nat
    recommends
        cfg.interval > 0,
{
    match cfg.initial_delay {
        Option::Some(delay) => {
            if elapsed <= delay {
                (delay - elapsed) as nat
            } else {
                (cfg.interval - ((elapsed - delay) % (cfg.interval as int))) as nat
            }
        },
        Option::None => (cfg.interval - ((elapsed as int) % (cfg.interval as int))) as nat,
    }
}

/// The ranking policy: `a` is scheduled ahead of `b` when it is due sooner,
/// or equally soon with the longer configured interval.
pub open spec fn beats(a: TimerSlot, b: TimerSlot) -> bool {
    a.time_left < b.time_left || (a.time_left == b.time_left && a.cfg.interval > b.cfg.interval)
}

/// Index of the top-ranked slot among the first `n`; the earliest slot wins
/// when two are tied on both keys.
pub open spec fn winner_upto(s: Seq<TimerSlot>, n: int) -> int
    decreases n,
{
    if n <= 1 {
        0
    } else {
        let w = winner_upto(s, n - 1);
        if beats(s[n - 1], s[w]) {
            n - 1
        } else {
            w
        }
    }
}

/// Index of the timer that the scheduling engine selects.
pub open spec fn winner(s: Seq<TimerSlot>) -> int {
    winner_upto(s, s.len() as int)
}

/// Every slot's remaining time recomputed at the given elapsed value.
pub open spec fn recomputed(s: Seq<TimerSlot>, elapsed: nat) -> Seq<TimerSlot> {
    Seq::new(s.len(), |i: int| TimerSlot { time_left: raw_time_left(s[i].cfg, elapsed), ..s[i] })
}

/// The scheduling engine: recompute every remaining time, pick the winner,
/// shrink its wait by its decline policy, count the coming firing, and set
/// the deadline. An empty catalog leaves the schedule untouched.
pub open spec fn select_next(m: DaemonModel) -> DaemonModel {
    let s = recomputed(m.timers, m.elapsed);
    if s.len() == 0 {
        DaemonModel { timers: s, ..m }
    } else {
        let w = winner(s);
        let adjusted = decayed_wait(s[w].time_left, s[w].cfg.decline, s[w].prompts);
        DaemonModel {
            timers: s.update(w, TimerSlot { prompts: sat_add(s[w].prompts, 1), ..s[w] }),
            next_timer_at: sat_add(m.elapsed, adjusted),
            next_timer: Option::Some(w),
            ..m
        }
    }
}

/// All prompt counters zeroed.
pub open spec fn cleared(s: Seq<TimerSlot>) -> Seq<TimerSlot> {
    Seq::new(s.len(), |i: int| TimerSlot { prompts: 0, ..s[i] })
}

/// A full reset: zero the elapsed clock and every prompt counter, then
/// recompute the schedule.
pub open spec fn reset(m: DaemonModel) -> DaemonModel {
    select_next(DaemonModel { elapsed: 0, timers: cleared(m.timers), ..m })
}

/// Milliseconds the clock moved since the previous tick; a backward jump
/// counts as zero.
pub open spec fn tick_delta(m: DaemonModel, now_ms: nat) -> nat {
    if now_ms >= m.last_update {
        (now_ms - m.last_update) as nat
    } else {
        0
    }
}

/// Milliseconds since the last known user input; input stamped in the
/// future counts as zero idleness.
pub open spec fn activity_gap(last_input: nat, now_unix: nat) -> nat {
    if now_unix >= last_input {
        ((now_unix - last_input) * 1000) as nat
    } else {
        0
    }
}

/// A tick gap long enough to look like a system suspend, when tracking is
/// configured.
pub open spec fn suspend_gap(m: DaemonModel, delta: nat) -> bool {
    match m.tracking {
        Option::Some(tr) => delta >= tr.reset_after,
        Option::None => false,
    }
}

/// The tail of a tick: credit the delta while neither frozen nor disabled,
/// and fire the selected timer once its deadline is reached, immediately
/// reselecting. Returns the new state and the index that fired, if any.
pub open spec fn advance_and_fire(m: DaemonModel, delta: nat) -> (DaemonModel, Option<int>) {
    let elapsed2 = if !m.is_frozen && m.is_enabled {
        sat_add(m.elapsed, delta)
    } else {
        m.elapsed
    };
    let m2 = DaemonModel { elapsed: elapsed2, ..m };
    if elapsed2 >= m.next_timer_at {
        (select_next(m2), m.next_timer)
    } else {
        (m2, Option::None)
    }
}

/// One clock tick of the whole state machine.
///
/// A delta at or past the inactivity-reset threshold is treated as a
/// suspend/resume gap: a full reset if any time was credited, and never a
/// credit of the gap itself. Otherwise, when tracking is configured, long
/// idleness resets and freezes, moderate idleness freezes, and fresh input
/// thaws; the clock then advances and fires as usual.
pub open spec fn tick(m: DaemonModel, now_ms: nat, now_unix: nat) -> (DaemonModel, Option<int>) {
    let delta = tick_delta(m, now_ms);
    let m1 = DaemonModel { last_update: now_ms, ..m };
    if suspend_gap(m, delta) {
        if m.elapsed > 0 {
            (reset(m1), Option::None)
        } else {
            advance_and_fire(m1, delta)
        }
    } else {
        match m.tracking {
            Option::Some(tr) => {
                let gap = activity_gap(m.last_input, now_unix);
                if gap >= tr.reset_after && m.elapsed > 0 {
                    (DaemonModel { is_frozen: true, ..reset(m1) }, Option::None)
                } else {
                    let frozen = if !m.is_frozen && gap > tr.pause_after {
                        true
                    } else if m.is_frozen && gap < UNFREEZE_WINDOW_MS {
                        false
                    } else {
                        m.is_frozen
                    };
                    advance_and_fire(DaemonModel { is_frozen: frozen, ..m1 }, delta)
                }
            },
            Option::None => advance_and_fire(m1, delta),
        }
    }
}

/// One decline step never grows the wait.
pub proof fn lemma_decay_step_le(wait: nat, decline: nat)
    ensures
        decay_step(wait, decline) <= wait,
{
    assert(wait * 100 <= (100 + decline) * wait) by (nonlinear_arith);
    vstd::arithmetic::div_mod::lemma_multiply_divide_le(
        (wait * 100) as int,
        (100 + decline) as int,
        wait as int,
    );
}

/// One decline step strictly shrinks a positive wait under a positive
/// decline.
pub proof fn lemma_decay_step_lt(wait: nat, decline: nat)
    requires
        wait > 0,
        decline > 0,
    ensures
        decay_step(wait, decline) < wait,
{
    assert(wait * 100 < (100 + decline) * wait) by (nonlinear_arith)
        requires
            wait > 0 && decline > 0,
    ;
    vstd::arithmetic::div_mod::lemma_multiply_divide_lt(
        (wait * 100) as int,
        (100 + decline) as int,
        wait as int,
    );
}

/// Decline no-op law: with a decline of zero, the adjusted wait equals the
/// raw wait whatever the prompt count.
pub proof fn lemma_decline_zero_noop(wait: nat, prompts: nat)
    ensures
        decayed_wait(wait, 0, prompts) == wait,
    decreases prompts,
{
    if prompts > 0 {
        lemma_decline_zero_noop(wait, (prompts - 1) as nat);
        vstd::arithmetic::div_mod::lemma_div_by_multiple(wait as int, 100);
    }
}

/// The adjusted wait never exceeds the raw wait.
pub proof fn lemma_decayed_le(wait: nat, decline: nat, prompts: nat)
    ensures
        decayed_wait(wait, decline, prompts) <= wait,
    decreases prompts,
{
    if prompts > 0 {
        lemma_decayed_le(wait, decline, (prompts - 1) as nat);
        lemma_decay_step_le(decayed_wait(wait, decline, (prompts - 1) as nat), decline);
    }
}

/// A wait that has declined to zero stays at zero.
pub proof fn lemma_decayed_zero_stays(wait: nat, decline: nat, p: nat, q: nat)
    requires
        p <= q,
        decayed_wait(wait, decline, p) == 0,
    ensures
        decayed_wait(wait, decline, q) == 0,
    decreases q - p,
{
    if q > p {
        lemma_decayed_zero_stays(wait, decline, p, (q - 1) as nat);
    }
}

/// Decline monotonicity law: under a positive decline the adjusted wait
/// never grows with the prompt count, shrinks strictly while it is still
/// positive, and, being a natural number, is never negative.
pub proof fn lemma_decline_monotonic(wait: nat, decline: nat, prompts: nat)
    requires
        decline > 0,
    ensures
        decayed_wait(wait, decline, prompts + 1) <= decayed_wait(wait, decline, prompts),
        decayed_wait(wait, decline, prompts) > 0 ==> decayed_wait(wait, decline, prompts + 1)
            < decayed_wait(wait, decline, prompts),
{
    let w = decayed_wait(wait, decline, prompts);
    lemma_decay_step_le(w, decline);
    if w > 0 {
        lemma_decay_step_lt(w, decline);
    }
}

/// Under a positive decline the adjusted wait never grows across any span
/// of the prompt count.
pub proof fn lemma_decayed_monotone_range(wait: nat, decline: nat, p: nat, q: nat)
    requires
        decline > 0,
        p <= q,
    ensures
        decayed_wait(wait, decline, q) <= decayed_wait(wait, decline, p),
    decreases q - p,
{
    if q > p {
        lemma_decayed_monotone_range(wait, decline, p, (q - 1) as nat);
        lemma_decline_monotonic(wait, decline, (q - 1) as nat);
    }
}

proof fn lemma_decayed_budget(wait: nat, decline: nat, prompts: nat)
    requires
        decline > 0,
    ensures
        decayed_wait(wait, decline, prompts) > 0 ==> decayed_wait(wait, decline, prompts) + prompts
            <= wait,
    decreases prompts,
{
    if prompts > 0 {
        let prev = decayed_wait(wait, decline, (prompts - 1) as nat);
        lemma_decayed_budget(wait, decline, (prompts - 1) as nat);
        if prev > 0 {
            lemma_decay_step_lt(prev, decline);
        }
    }
}

/// Decline convergence law: under a positive decline the adjusted wait has
/// reached zero after at most as many firings as the raw wait has
/// milliseconds.
pub proof fn lemma_decline_reaches_zero(wait: nat, decline: nat)
    requires
        decline > 0,
    ensures
        decayed_wait(wait, decline, wait) == 0,
{
    lemma_decayed_budget(wait, decline, wait);
}

/// The selected index is one of the first `n` slots, and none of them is
/// ranked strictly ahead of it.
pub proof fn lemma_winner_upto_min(s: Seq<TimerSlot>, n: int)
    requires
        1 <= n <= s.len(),
    ensures
        0 <= winner_upto(s, n) < n,
        forall|i: int| 0 <= i < n ==> !beats(s[i], s[winner_upto(s, n)]),
    decreases n,
{
    if n > 1 {
        lemma_winner_upto_min(s, n - 1);
        let w0 = winner_upto(s, n - 1);
        if beats(s[n - 1], s[w0]) {
            assert forall|i: int| 0 <= i < n implies !beats(#[trigger] s[i], s[n - 1]) by {
                if i < n - 1 {
                    assert(!beats(s[i], s[w0]));
                }
            }
        }
    }
}

/// Selection soundness law: with at least one timer the scheduling engine
/// selects an index inside the catalog, ranked no worse than any other.
pub proof fn lemma_winner_in_range(s: Seq<TimerSlot>)
    requires
        s.len() >= 1,
    ensures
        0 <= winner(s) < s.len(),
        forall|i: int| 0 <= i < s.len() ==> !beats(s[i], s[winner(s)]),
{
    lemma_winner_upto_min(s, s.len() as int);
}

/// Tie-break law: a timer whose remaining time equals the selected one's
/// never has the longer interval.
pub proof fn lemma_tie_break(s: Seq<TimerSlot>, i: int)
    requires
        s.len() >= 1,
        0 <= i < s.len(),
        s[i].time_left == s[winner(s)].time_left,
    ensures
        s[winner(s)].cfg.interval >= s[i].cfg.interval,
{
    lemma_winner_in_range(s);
    assert(!beats(s[i], s[winner(s)]));
}

/// What a client request does to the state, and what is answered.
pub open spec fn respond(m: DaemonModel, enabled2: bool) -> DaemonModel {
    DaemonModel { is_enabled: enabled2, ..m }
}

/// The newest-input fold of the activity feed: stale stamps are ignored.
pub open spec fn noted_activity(m: DaemonModel, stamp: nat) -> DaemonModel {
    DaemonModel { last_input: if stamp > m.last_input { stamp } else { m.last_input }, ..m }
}

} // verus!
