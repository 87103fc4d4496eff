//! The tick state machine and the scheduling engine: the daemon state, its
//! clock tick, the full reset, client request handling, and the activity
//! fold. Every transition is proved equal to its image in `model`.

use crate::config::{Config, InputTracking, Timer};
use crate::error::Error;
use crate::model;
use crate::model::{DaemonModel, TimerModel, TimerSlot};
use crate::{IpcRequest, IpcResponse, Status};
use vstd::prelude::*;

verus! {

/// The runtime state of one catalog entry.
#[derive(Debug, Clone)]
pub struct TimerState {
    /// Remaining milliseconds as of the last schedule recomputation.
    pub time_left_ms: u64,
    /// Times this timer has been selected to fire since the last full
    /// reset, the startup selection included; drives the decline policy.
    pub prompts: u64,
    pub timer: Timer,
}

impl View for TimerState {
    type V = TimerSlot;

    open spec fn view(&self) -> TimerSlot {
        TimerSlot {
            time_left: self.time_left_ms as nat,
            prompts: self.prompts as nat,
            cfg: self.timer@,
        }
    }
}

/// Relies on rand::random_range over `0..len`: a draw somewhere inside the
/// range; an empty range would make the call panic, so one is never passed.
#[verifier::external_body]
fn random_below(len: usize) -> (r: usize)
    requires
        len > 0,
    ensures
        r < len,
{
    rand::random_range(0..len)
}

/// The notification content for one firing of `timer` at the given elapsed
/// time: the configured title, one of the configured descriptions (picked
/// at random when there are several, a plain elapsed-time line when there
/// are none) with its `{}` replaced by the rendered elapsed time, and the
/// configured timeout. Nothing when the timer carries no notification.
pub fn compose_notification(timer: &Timer, elapsed_ms: u64) -> (r: Option<
    (String, String, Option<u32>),
>)
    ensures
        match timer.notification {
            Option::Some(n) => {
                &&& r matches Option::Some(out)
                &&& (r matches Option::Some(out) ==> {
                    &&& out.0@ == n.title@
                    &&& out.2 == n.timeout
                    &&& (if n.descriptions@.len() == 0 {
                        out.1@ == crate::util::formatted(
                            "{} elapsed"@,
                            crate::util::duration_text(elapsed_ms as nat),
                        )
                    } else {
                        exists|k: int|
                            0 <= k < n.descriptions@.len() && out.1@ == crate::util::formatted(
                                n.descriptions@[k]@,
                                crate::util::duration_text(elapsed_ms as nat),
                            )
                    })
                })
            },
            Option::None => r is None,
        },
{
    match &timer.notification {
        Option::Some(n) => {
            let elapsed_text = crate::util::format_duration(elapsed_ms);
            let body = if n.descriptions.len() > 0 {
                let idx = random_below(n.descriptions.len());
                let b = crate::util::format_string(&n.descriptions[idx], elapsed_text.as_str());
                proof {
                    assert(b@ == crate::util::formatted(
                        n.descriptions@[idx as int]@,
                        crate::util::duration_text(elapsed_ms as nat),
                    ));
                }
                b
            } else {
                crate::util::format_string("{} elapsed", elapsed_text.as_str())
            };
            Option::Some((n.title.clone(), body, n.timeout))
        },
        Option::None => Option::None,
    }
}

/// The raw remaining time of one timer, as `model::raw_time_left` says of
/// the given definition.
fn time_left_exec(interval: u64, delay: Option<u64>, elapsed: u64, Ghost(cfg): Ghost<TimerModel>) -> (r:
    u64)
    requires
        interval > 0,
        cfg.interval == interval as nat,
        cfg.initial_delay == (match delay {
            Option::Some(d) => Option::Some(d as nat),
            Option::None => Option::None::<nat>,
        }),
    ensures
        r as nat == model::raw_time_left(cfg, elapsed as nat),
{
    match delay {
        Option::Some(d) => {
            if elapsed <= d {
                d - elapsed
            } else {
                let eff = elapsed - d;
                interval - (eff % interval)
            }
        },
        Option::None => interval - (elapsed % interval),
    }
}

/// The adjusted wait after the given number of firings, as
/// `model::decayed_wait` says.
fn decayed_wait_exec(wait: u64, decline: u64, prompts: u64) -> (r: u64)
    ensures
        r as nat == model::decayed_wait(wait as nat, decline as nat, prompts as nat),
{
    if decline == 0 {
        proof {
            model::lemma_decline_zero_noop(wait as nat, prompts as nat);
        }
        return wait;
    }
    let mut w = wait;
    let mut p: u64 = 0;
    while p < prompts && w > 0
        invariant
            decline >= 1,
            p <= prompts,
            w as nat == model::decayed_wait(wait as nat, decline as nat, p as nat),
        decreases prompts - p,
    {
        proof {
            model::lemma_decay_step_le(w as nat, decline as nat);
        }
        let wide: u128 = (w as u128) * 100 / (100u128 + decline as u128);
        w = wide as u64;
        p = p + 1;
    }
    if p < prompts {
        proof {
            model::lemma_decayed_zero_stays(wait as nat, decline as nat, p as nat, prompts as nat);
        }
    }
    w
}

impl TimerState {
    pub fn new(timer: Timer) -> (s: TimerState)
        ensures
            s@ == (TimerSlot { time_left: 0, prompts: 0, cfg: timer@ }),
            s.timer == timer,
    {
        TimerState { time_left_ms: 0, prompts: 0, timer }
    }

    /// Forgets the firings counted so far.
    pub fn reset(&mut self)
        ensures
            final(self)@ == (TimerSlot { prompts: 0, ..old(self)@ }),
            final(self).timer == old(self).timer,
            final(self).time_left_ms == old(self).time_left_ms,
    {
        self.prompts = 0;
    }
}

/// The whole mutable state of the scheduler daemon.
#[derive(Debug)]
pub struct Daemon {
    pub input_tracking: Option<InputTracking>,
    /// Milliseconds of credited screen time since the last reset.
    pub elapsed_ms: u64,
    /// Monotonic stamp (ms) of the previous tick.
    pub last_update_ms: u64,
    /// The `elapsed_ms` value at which the selected timer is due.
    pub next_timer_at_ms: u64,
    /// Index of the timer selected to fire next.
    pub next_timer: Option<usize>,
    pub timers: Vec<TimerState>,
    pub is_enabled: bool,
    pub is_frozen: bool,
    /// Unix seconds of the most recent known user input.
    pub last_input: u64,
}

impl View for Daemon {
    type V = DaemonModel;

    open spec fn view(&self) -> DaemonModel {
        DaemonModel {
            tracking: match self.input_tracking {
                Option::Some(t) => Option::Some(t@),
                Option::None => Option::None,
            },
            elapsed: self.elapsed_ms as nat,
            last_update: self.last_update_ms as nat,
            next_timer_at: self.next_timer_at_ms as nat,
            next_timer: match self.next_timer {
                Option::Some(i) => Option::Some(i as int),
                Option::None => Option::None,
            },
            timers: self.timers@.map_values(|t: TimerState| t@),
            is_enabled: self.is_enabled,
            is_frozen: self.is_frozen,
            last_input: self.last_input as nat,
        }
    }
}

impl Daemon {
    /// A state the scheduler can run on: a nonempty catalog, positive
    /// intervals, and a selected index inside the catalog once one exists.
    pub open spec fn wf(&self) -> bool {
        &&& self.timers@.len() >= 1
        &&& forall|i: int|
            0 <= i < self.timers@.len() ==> self.timers@[i].timer.interval_ms > 0
        &&& match self.next_timer {
            Option::Some(j) => j < self.timers@.len(),
            Option::None => true,
        }
    }

    /// Builds the daemon state from a valid catalog: nothing elapsed, all
    /// counters zero, enabled, not frozen, and no timer selected yet (the
    /// first schedule computation selects one).
    pub fn new(config: Config, now_ms: u64, now_unix: u64) -> (d: Daemon)
        requires
            config.valid(),
        ensures
            d.wf(),
            d@ == (DaemonModel {
                tracking: match config.input_tracking {
                    Option::Some(t) => Option::Some(t@),
                    Option::None => Option::None,
                },
                elapsed: 0,
                last_update: now_ms as nat,
                next_timer_at: u64::MAX as nat,
                next_timer: Option::None,
                timers: config.timers@.map_values(
                    |t: Timer| TimerSlot { time_left: 0, prompts: 0, cfg: t@ },
                ),
                is_enabled: true,
                is_frozen: false,
                last_input: now_unix as nat,
            }),
            d.timers@.len() == config.timers@.len(),
            forall|i: int|
                0 <= i < config.timers@.len() ==> d.timers@[i].timer == config.timers@[i],
    {
        let Config { timers: mut defs, input_tracking } = config;
        let ghost orig = defs@;
        let mut states: Vec<TimerState> = Vec::new();
        while defs.len() > 0
            invariant
                orig =~= states@.map_values(|t: TimerState| t.timer) + defs@,
                forall|i: int|
                    0 <= i < states@.len() ==> states@[i]@ == (TimerSlot {
                        time_left: 0,
                        prompts: 0,
                        cfg: orig[i]@,
                    }),
            decreases defs@.len(),
        {
            let t = defs.remove(0);
            states.push(TimerState::new(t));
        }
        let d = Daemon {
            input_tracking,
            elapsed_ms: 0,
            last_update_ms: now_ms,
            next_timer_at_ms: u64::MAX,
            next_timer: Option::None,
            timers: states,
            is_enabled: true,
            is_frozen: false,
            last_input: now_unix,
        };
        proof {
            assert(d.timers@.map_values(|t: TimerState| t@) =~= orig.map_values(
                |t: Timer| TimerSlot { time_left: 0, prompts: 0, cfg: t@ },
            ));
            assert(forall|i: int|
                0 <= i < orig.len() ==> d.timers@[i].timer == orig[i]);
        }
        d
    }

    /// The scheduling engine (see `model::select_next`): recomputes every
    /// timer's remaining time at the current elapsed value, selects the one
    /// due soonest (longer interval winning ties), shrinks its wait by its
    /// decline policy, counts the coming firing, and sets the deadline.
    #[verifier::loop_isolation(false)]
    pub fn update_timer(&mut self)
        requires
            old(self).wf(),
        ensures
            final(self)@ == model::select_next(old(self)@),
            final(self).wf(),
            final(self).timers@.len() == old(self).timers@.len(),
            forall|i: int|
                0 <= i < old(self).timers@.len() ==> final(self).timers@[i].timer == old(
                    self,
                ).timers@[i].timer,
            final(self).input_tracking == old(self).input_tracking,
            final(self).elapsed_ms == old(self).elapsed_ms,
            final(self).last_update_ms == old(self).last_update_ms,
            final(self).is_enabled == old(self).is_enabled,
            final(self).is_frozen == old(self).is_frozen,
            final(self).last_input == old(self).last_input,
    {
        let ghost m0 = old(self)@;
        let elapsed = self.elapsed_ms;
        let n = self.timers.len();
        let mut i: usize = 0;
        while i < n
            invariant
                n == self.timers@.len(),
                0 <= i <= n,
                self.elapsed_ms == old(self).elapsed_ms,
                self.last_update_ms == old(self).last_update_ms,
                self.next_timer_at_ms == old(self).next_timer_at_ms,
                self.next_timer == old(self).next_timer,
                self.input_tracking == old(self).input_tracking,
                self.is_enabled == old(self).is_enabled,
                self.is_frozen == old(self).is_frozen,
                self.last_input == old(self).last_input,
                forall|j: int| i <= j < n ==> self.timers@[j] == old(self).timers@[j],
                forall|j: int|
                    0 <= j < i ==> self.timers@[j].timer == old(self).timers@[j].timer
                        && self.timers@[j].prompts == old(self).timers@[j].prompts && (
                    #[trigger] self.timers@[j])@ == model::recomputed(m0.timers, m0.elapsed)[j],
            decreases n - i,
        {
            let interval = self.timers[i].timer.interval_ms;
            let delay = self.timers[i].timer.initial_delay_ms;
            let ghost cfg = self.timers@[i as int].timer@;
            let tl = time_left_exec(interval, delay, elapsed, Ghost(cfg));
            self.timers[i].time_left_ms = tl;
            i = i + 1;
        }
        let ghost s = model::recomputed(m0.timers, m0.elapsed);
        proof {
            assert(self.timers@.map_values(|t: TimerState| t@) =~= s);
            model::lemma_winner_in_range(s);
        }
        let mut w: usize = 0;
        let mut k: usize = 1;
        while k < n
            invariant
                1 <= k <= n,
                w < k,
                w as int == model::winner_upto(s, k as int),
            decreases n - k,
        {
            let better = self.timers[k].time_left_ms < self.timers[w].time_left_ms || (
            self.timers[k].time_left_ms == self.timers[w].time_left_ms
                && self.timers[k].timer.interval_ms > self.timers[w].timer.interval_ms);
            proof {
                assert(better == model::beats(s[k as int], s[w as int]));
            }
            if better {
                w = k;
            }
            k = k + 1;
        }
        proof {
            assert(w as int == model::winner(s));
        }
        let tl = self.timers[w].time_left_ms;
        let decline = self.timers[w].timer.decline_centi;
        let prompts = self.timers[w].prompts;
        let adjusted = decayed_wait_exec(tl, decline, prompts);
        let new_prompts = if prompts == u64::MAX {
            prompts
        } else {
            prompts + 1
        };
        self.timers[w].prompts = new_prompts;
        self.next_timer_at_ms = self.elapsed_ms.saturating_add(adjusted);
        self.next_timer = Option::Some(w);
        proof {
            let wi = w as int;
            assert(self.timers@.map_values(|t: TimerState| t@) =~= s.update(
                wi,
                TimerSlot { prompts: model::sat_add(s[wi].prompts, 1), ..s[wi] },
            ));
            assert(self@ =~= model::select_next(m0));
        }
    }

    /// A full reset (see `model::reset`): zeroes the elapsed clock and
    /// every prompt counter, then recomputes the schedule. Triggered by a
    /// client request, a suspend gap, or long idleness; it never touches
    /// the enabled and frozen flags itself.
    #[verifier::loop_isolation(false)]
    pub fn reset(&mut self)
        requires
            old(self).wf(),
        ensures
            final(self)@ == model::reset(old(self)@),
            final(self).wf(),
            final(self).timers@.len() == old(self).timers@.len(),
            forall|i: int|
                0 <= i < old(self).timers@.len() ==> final(self).timers@[i].timer == old(
                    self,
                ).timers@[i].timer,
            final(self).input_tracking == old(self).input_tracking,
            final(self).last_update_ms == old(self).last_update_ms,
            final(self).is_enabled == old(self).is_enabled,
            final(self).is_frozen == old(self).is_frozen,
            final(self).last_input == old(self).last_input,
    {
        let ghost m0 = old(self)@;
        self.elapsed_ms = 0;
        let n = self.timers.len();
        let mut i: usize = 0;
        while i < n
            invariant
                n == self.timers@.len(),
                0 <= i <= n,
                self.elapsed_ms == 0,
                self.last_update_ms == old(self).last_update_ms,
                self.next_timer_at_ms == old(self).next_timer_at_ms,
                self.next_timer == old(self).next_timer,
                self.input_tracking == old(self).input_tracking,
                self.is_enabled == old(self).is_enabled,
                self.is_frozen == old(self).is_frozen,
                self.last_input == old(self).last_input,
                forall|j: int| i <= j < n ==> self.timers@[j] == old(self).timers@[j],
                forall|j: int|
                    0 <= j < i ==> self.timers@[j].timer == old(self).timers@[j].timer && (
                    #[trigger] self.timers@[j]).prompts == 0 && self.timers@[j].time_left_ms == old(
                        self,
                    ).timers@[j].time_left_ms,
            decreases n - i,
        {
            self.timers[i].prompts = 0;
            i = i + 1;
        }
        proof {
            assert(self@ =~= (DaemonModel {
                elapsed: 0,
                timers: model::cleared(m0.timers),
                ..m0
            }));
        }
        let ghost mid = self@;
        self.update_timer();
        proof {
            assert(self@ == model::select_next(mid));
        }
    }

    /// One clock tick (see `model::tick`): computes the delta since the
    /// previous tick (a backward clock jump counts as zero), detects a
    /// suspend gap, applies the idleness heuristics when tracking is
    /// configured, credits the delta while neither frozen nor disabled, and
    /// fires the selected timer once its deadline is reached. Returns the
    /// index of the timer that fired, for the caller to run its side
    /// effects.
    pub fn tick(&mut self, now_ms: u64, now_unix: u64) -> (fired: Option<usize>)
        requires
            old(self).wf(),
        ensures
            final(self).wf(),
            final(self)@ == model::tick(old(self)@, now_ms as nat, now_unix as nat).0,
            (match (fired, model::tick(old(self)@, now_ms as nat, now_unix as nat).1) {
                (Option::Some(i), Option::Some(j)) => i as int == j,
                (Option::None, Option::None) => true,
                _ => false,
            }),
            fired matches Option::Some(i) ==> i < old(self).timers@.len(),
            final(self).timers@.len() == old(self).timers@.len(),
            forall|i: int|
                0 <= i < old(self).timers@.len() ==> final(self).timers@[i].timer == old(
                    self,
                ).timers@[i].timer,
    {
        let tracking = self.input_tracking;
        let delta = if now_ms >= self.last_update_ms {
            now_ms - self.last_update_ms
        } else {
            0
        };
        self.last_update_ms = now_ms;
        let suspend = match tracking {
            Option::Some(tr) => delta >= tr.reset_after_ms,
            Option::None => false,
        };
        if suspend && self.elapsed_ms > 0 {
            self.reset();
            return Option::None;
        }
        if !suspend {
            if let Option::Some(tr) = tracking {
                let gap_s = if now_unix >= self.last_input {
                    now_unix - self.last_input
                } else {
                    0
                };
                let gap_ms: u128 = (gap_s as u128) * 1000;
                if gap_ms >= tr.reset_after_ms as u128 && self.elapsed_ms > 0 {
                    self.reset();
                    self.is_frozen = true;
                    return Option::None;
                }
                if !self.is_frozen && gap_ms > tr.pause_after_ms as u128 {
                    self.is_frozen = true;
                } else if self.is_frozen && gap_ms < model::UNFREEZE_WINDOW_MS as u128 {
                    self.is_frozen = false;
                }
            }
        }
        if !self.is_frozen && self.is_enabled {
            self.elapsed_ms = self.elapsed_ms.saturating_add(delta);
        }
        if self.elapsed_ms >= self.next_timer_at_ms {
            let fired = self.next_timer;
            self.update_timer();
            return fired;
        }
        Option::None
    }

    /// Answers one control request: `Status` reports the elapsed time and
    /// the deadline without changing anything, `Toggle` flips the enabled
    /// flag, `Reset` performs the full reset; the last two acknowledge.
    pub fn handle_msg(&mut self, msg: IpcRequest) -> (r: Result<IpcResponse, Error>)
        requires
            old(self).wf(),
        ensures
            final(self).wf(),
            match msg {
                IpcRequest::Status => {
                    &&& *final(self) == *old(self)
                    &&& r matches Result::Ok(IpcResponse::Status(st))
                        && st.elapsed == old(self).elapsed_ms
                        && st.next_timer == old(self).next_timer_at_ms
                },
                IpcRequest::Toggle => {
                    &&& r matches Result::Ok(IpcResponse::Ack)
                    &&& final(self)@ == model::respond(old(self)@, !old(self).is_enabled)
                    &&& final(self).is_enabled == !old(self).is_enabled
                    &&& final(self).timers == old(self).timers
                    &&& final(self).elapsed_ms == old(self).elapsed_ms
                    &&& final(self).next_timer_at_ms == old(self).next_timer_at_ms
                    &&& final(self).next_timer == old(self).next_timer
                    &&& final(self).is_frozen == old(self).is_frozen
                    &&& final(self).last_input == old(self).last_input
                    &&& final(self).last_update_ms == old(self).last_update_ms
                    &&& final(self).input_tracking == old(self).input_tracking
                },
                IpcRequest::Reset => {
                    &&& r matches Result::Ok(IpcResponse::Ack)
                    &&& final(self)@ == model::reset(old(self)@)
                    &&& forall|i: int|
                        0 <= i < old(self).timers@.len() ==> final(self).timers@[i].timer
                            == old(self).timers@[i].timer
                },
            },
    {
        match msg {
            IpcRequest::Status => Result::Ok(
                IpcResponse::Status(Status::new(self.elapsed_ms, self.next_timer_at_ms)),
            ),
            IpcRequest::Toggle => {
                self.is_enabled = !self.is_enabled;
                proof {
                    assert(self@ =~= model::respond(old(self)@, !old(self).is_enabled));
                }
                Result::Ok(IpcResponse::Ack)
            },
            IpcRequest::Reset => {
                self.reset();
                Result::Ok(IpcResponse::Ack)
            },
        }
    }

    /// The definition of the timer at the given index, for the caller to
    /// run its side effects after a firing.
    pub fn timer_at(&self, idx: usize) -> (t: &Timer)
        requires
            idx < self.timers@.len(),
        ensures
            t == self.timers@[idx as int].timer,
    {
        &self.timers[idx].timer
    }

    /// Folds one activity stamp into the state: only a newer stamp counts.
    pub fn note_activity(&mut self, stamp: u64)
        ensures
            final(self)@ == model::noted_activity(old(self)@, stamp as nat),
            final(self).last_input == if stamp > old(self).last_input {
                stamp
            } else {
                old(self).last_input
            },
            final(self).wf() == old(self).wf(),
            final(self).timers == old(self).timers,
            final(self).elapsed_ms == old(self).elapsed_ms,
            final(self).is_enabled == old(self).is_enabled,
            final(self).is_frozen == old(self).is_frozen,
    {
        if stamp > self.last_input {
            self.last_input = stamp;
        }
        proof {
            assert(final(self)@ =~= model::noted_activity(old(self)@, stamp as nat));
        }
    }
}

} // verus!
