use blink_timer::config::{Config, InputTracking, Notification, Timer};
use blink_timer::daemon::{compose_notification, Daemon};
use blink_timer::{IpcRequest, IpcResponse};

fn plain_timer(interval_ms: u64, decline_centi: u64) -> Timer {
    Timer {
        interval_ms,
        initial_delay_ms: None,
        decline_centi,
        notification: None,
        sound: None,
        command: None,
    }
}

fn catalog(timers: Vec<Timer>, input_tracking: Option<InputTracking>) -> Config {
    Config {
        timers,
        input_tracking,
    }
}

#[test]
fn single_timer_fires_once_at_its_interval() {
    // 20-minute timer, no decline, no activity tracking: 1200 one-second
    // ticks produce exactly one firing, at 20:00, rescheduled for 40:00.
    let config = catalog(vec![plain_timer(20 * 60 * 1000, 0)], None);
    assert!(config.validate().is_ok());
    let mut d = Daemon::new(config, 0, 0);
    d.update_timer();
    assert_eq!(d.next_timer_at_ms, 20 * 60 * 1000);
    assert_eq!(d.next_timer, Some(0));
    assert_eq!(d.timers[0].prompts, 1);

    let mut firings: Vec<(u64, usize)> = Vec::new();
    for k in 1..=1200u64 {
        if let Some(idx) = d.tick(1000 * k, 0) {
            firings.push((d.elapsed_ms, idx));
        }
    }
    assert_eq!(firings, vec![(20 * 60 * 1000, 0)]);
    assert_eq!(d.elapsed_ms, 20 * 60 * 1000);
    assert_eq!(d.next_timer_at_ms, 40 * 60 * 1000);
    // one scheduling at startup and one at the firing
    assert_eq!(d.timers[0].prompts, 2);
}

#[test]
fn decline_halves_the_second_wait_by_a_third() {
    // 60-minute timer with decline 0.5: after the first firing the next
    // wait is 60min * (1 / 1.5) = 40min.
    let config = catalog(vec![plain_timer(60 * 60 * 1000, 50)], None);
    let mut d = Daemon::new(config, 0, 0);
    d.update_timer();
    assert_eq!(d.next_timer_at_ms, 60 * 60 * 1000);

    let fired = d.tick(60 * 60 * 1000, 0);
    assert_eq!(fired, Some(0));
    assert_eq!(d.elapsed_ms, 60 * 60 * 1000);
    assert_eq!(d.next_timer_at_ms, 60 * 60 * 1000 + 40 * 60 * 1000);
}

#[test]
fn zero_decline_keeps_the_wait_constant() {
    let config = catalog(vec![plain_timer(1000 * 60, 0)], None);
    let mut d = Daemon::new(config, 0, 0);
    d.update_timer();
    let mut deadlines = Vec::new();
    for k in 1..=300u64 {
        if d.tick(1000 * k, 0).is_some() {
            deadlines.push(d.next_timer_at_ms - d.elapsed_ms);
        }
    }
    assert_eq!(deadlines, vec![60_000; 5]);
}

#[test]
fn tie_break_prefers_the_longer_interval() {
    // At 20 minutes elapsed a 20-minute and a 40-minute timer are both due
    // in 20 minutes; the longer interval wins.
    let config = catalog(
        vec![plain_timer(20 * 60 * 1000, 0), plain_timer(40 * 60 * 1000, 0)],
        None,
    );
    let mut d = Daemon::new(config, 0, 0);
    d.elapsed_ms = 20 * 60 * 1000;
    d.update_timer();
    assert_eq!(d.timers[0].time_left_ms, d.timers[1].time_left_ms);
    assert_eq!(d.next_timer, Some(1));
}

#[test]
fn selection_is_in_range_and_deadline_past_elapsed() {
    let config = catalog(
        vec![
            plain_timer(7_000, 0),
            plain_timer(13_000, 25),
            plain_timer(5_000, 100),
        ],
        None,
    );
    let mut d = Daemon::new(config, 0, 0);
    for elapsed in [0u64, 1, 4_999, 5_000, 6_999, 12_345, 100_000] {
        d.elapsed_ms = elapsed;
        d.update_timer();
        let w = d.next_timer.expect("a timer is always selected");
        assert!(w < d.timers.len());
        assert!(d.next_timer_at_ms >= elapsed);
    }
}

#[test]
fn toggle_stops_and_resumes_the_clock() {
    // Toggle at 5:00 freezes the elapsed clock; a second toggle resumes it.
    let config = catalog(vec![plain_timer(20 * 60 * 1000, 0)], None);
    let mut d = Daemon::new(config, 0, 0);
    d.update_timer();
    let mut now = 0u64;
    for _ in 0..300 {
        now += 1000;
        d.tick(now, 0);
    }
    assert_eq!(d.elapsed_ms, 300_000);

    let resp = d.handle_msg(IpcRequest::Toggle).unwrap();
    assert!(matches!(resp, IpcResponse::Ack));
    assert!(!d.is_enabled);
    for _ in 0..100 {
        now += 1000;
        d.tick(now, 0);
    }
    assert_eq!(d.elapsed_ms, 300_000);

    d.handle_msg(IpcRequest::Toggle).unwrap();
    assert!(d.is_enabled);
    for _ in 0..10 {
        now += 1000;
        d.tick(now, 0);
    }
    assert_eq!(d.elapsed_ms, 310_000);
}

#[test]
fn reset_request_zeroes_clock_and_counters_and_reschedules() {
    let config = catalog(vec![plain_timer(10 * 60 * 1000, 0)], None);
    let mut d = Daemon::new(config, 0, 0);
    d.update_timer();
    let mut now = 0u64;
    for _ in 0..200 {
        now += 1000;
        d.tick(now, 0);
    }
    d.timers[0].prompts = 3;
    let resp = d.handle_msg(IpcRequest::Reset).unwrap();
    assert!(matches!(resp, IpcResponse::Ack));
    assert_eq!(d.elapsed_ms, 0);
    // the counters are zeroed, then the recomputation counts its scheduling
    assert_eq!(d.timers[0].prompts, 1);
    assert_eq!(d.next_timer_at_ms, 10 * 60 * 1000);
}

#[test]
fn reset_twice_equals_reset_once() {
    let config = catalog(
        vec![plain_timer(7 * 60 * 1000, 50), plain_timer(60 * 60 * 1000, 0)],
        None,
    );
    let mut d = Daemon::new(config, 0, 0);
    d.update_timer();
    let mut now = 0u64;
    for _ in 0..500 {
        now += 1000;
        d.tick(now, 0);
    }
    d.reset();
    let once = (
        d.elapsed_ms,
        d.next_timer_at_ms,
        d.next_timer,
        d.is_enabled,
        d.is_frozen,
        d.timers
            .iter()
            .map(|t| (t.time_left_ms, t.prompts))
            .collect::<Vec<_>>(),
    );
    d.reset();
    let twice = (
        d.elapsed_ms,
        d.next_timer_at_ms,
        d.next_timer,
        d.is_enabled,
        d.is_frozen,
        d.timers
            .iter()
            .map(|t| (t.time_left_ms, t.prompts))
            .collect::<Vec<_>>(),
    );
    assert_eq!(once, twice);
}

#[test]
fn status_request_reports_and_changes_nothing() {
    let config = catalog(vec![plain_timer(20 * 60 * 1000, 0)], None);
    let mut d = Daemon::new(config, 0, 0);
    d.update_timer();
    d.tick(90_000, 0);
    let resp = d.handle_msg(IpcRequest::Status).unwrap();
    match resp {
        IpcResponse::Status(st) => {
            assert_eq!(st.elapsed, 90_000);
            assert_eq!(st.next_timer, 20 * 60 * 1000);
        }
        other => panic!("expected a status response, got {:?}", other),
    }
    assert_eq!(d.elapsed_ms, 90_000);
}

#[test]
fn idleness_freezes_and_fresh_input_thaws() {
    let tracking = InputTracking {
        pause_after_ms: 10_000,
        reset_after_ms: 3_600_000,
    };
    let config = catalog(vec![plain_timer(20 * 60 * 1000, 0)], Some(tracking));
    // last input at Unix second 1000
    let mut d = Daemon::new(config, 0, 1000);
    d.update_timer();
    let mut now_ms = 0u64;
    // active user: clock advances
    for k in 0..60u64 {
        now_ms += 1000;
        d.tick(now_ms, 1001 + k / 30);
    }
    assert_eq!(d.elapsed_ms, 60_000);
    assert!(!d.is_frozen);
    // 20 seconds of idleness pass the pause threshold: frozen, elapsed holds
    for _ in 0..20 {
        now_ms += 1000;
        d.tick(now_ms, 1022);
    }
    assert!(d.is_frozen);
    let held = d.elapsed_ms;
    for _ in 0..30 {
        now_ms += 1000;
        d.tick(now_ms, 1022);
    }
    assert_eq!(d.elapsed_ms, held);
    // fresh input within the thaw window: unfrozen, advancing resumes
    d.note_activity(2000);
    now_ms += 1000;
    d.tick(now_ms, 2001);
    assert!(!d.is_frozen);
    assert_eq!(d.elapsed_ms, held + 1000);
}

#[test]
fn long_idleness_resets_and_freezes() {
    let tracking = InputTracking {
        pause_after_ms: 10_000,
        reset_after_ms: 60_000,
    };
    let config = catalog(vec![plain_timer(20 * 60 * 1000, 0)], Some(tracking));
    let mut d = Daemon::new(config, 0, 1000);
    d.update_timer();
    d.tick(5_000, 1005);
    assert_eq!(d.elapsed_ms, 5_000);
    // 90 seconds since the last input: full reset, frozen
    let fired = d.tick(6_000, 1090);
    assert_eq!(fired, None);
    assert_eq!(d.elapsed_ms, 0);
    assert!(d.is_frozen);
    assert_eq!(d.timers[0].prompts, 1);
}

#[test]
fn suspend_gap_resets_without_crediting_the_gap() {
    let tracking = InputTracking {
        pause_after_ms: 10_000,
        reset_after_ms: 60_000,
    };
    let config = catalog(vec![plain_timer(20 * 60 * 1000, 0)], Some(tracking));
    let mut d = Daemon::new(config, 0, 1000);
    d.update_timer();
    d.tick(5_000, 1005);
    d.timers[0].prompts = 4;
    assert_eq!(d.elapsed_ms, 5_000);
    // a two-hour gap between ticks: one reset, nothing credited, no firing
    let fired = d.tick(5_000 + 2 * 3_600_000, 1005);
    assert_eq!(fired, None);
    assert_eq!(d.elapsed_ms, 0);
    assert_eq!(d.timers[0].prompts, 1);
    assert_eq!(d.next_timer_at_ms, 20 * 60 * 1000);
    assert!(!d.is_frozen);
}

#[test]
fn backward_clock_jump_counts_as_zero() {
    let config = catalog(vec![plain_timer(20 * 60 * 1000, 0)], None);
    let mut d = Daemon::new(config, 10_000, 0);
    d.update_timer();
    d.tick(4_000, 0);
    assert_eq!(d.elapsed_ms, 0);
    d.tick(5_000, 0);
    assert_eq!(d.elapsed_ms, 1_000);
}

#[test]
fn initial_delay_anchors_the_phase() {
    // 10-minute interval after a 3-minute initial delay: due at 3:00, then
    // every 10 minutes from there.
    let timer = Timer {
        interval_ms: 10 * 60 * 1000,
        initial_delay_ms: Some(3 * 60 * 1000),
        decline_centi: 0,
        notification: None,
        sound: None,
        command: None,
    };
    let config = catalog(vec![timer], None);
    let mut d = Daemon::new(config, 0, 0);
    d.update_timer();
    assert_eq!(d.next_timer_at_ms, 3 * 60 * 1000);
    let fired = d.tick(3 * 60 * 1000, 0);
    assert_eq!(fired, Some(0));
    // at exactly the delay's end the remaining time reads zero, so the
    // schedule lands on the same instant once more
    assert_eq!(d.next_timer_at_ms, 3 * 60 * 1000);
    let fired = d.tick(3 * 60 * 1000 + 1000, 0);
    assert_eq!(fired, Some(0));
    // past the delay the recurrence is anchored at its end
    assert_eq!(d.next_timer_at_ms, 13 * 60 * 1000);
}

#[test]
fn activity_stamps_fold_as_a_maximum() {
    let config = catalog(vec![plain_timer(20 * 60 * 1000, 0)], None);
    let mut d = Daemon::new(config, 0, 5000);
    d.note_activity(6000);
    assert_eq!(d.last_input, 6000);
    d.note_activity(4000);
    assert_eq!(d.last_input, 6000);
    d.note_activity(6000);
    assert_eq!(d.last_input, 6000);
}

#[test]
fn notification_composition_fills_the_placeholder() {
    let silent = plain_timer(1000, 0);
    assert!(compose_notification(&silent, 0).is_none());

    let noisy = Timer {
        interval_ms: 1000,
        initial_delay_ms: None,
        decline_centi: 0,
        notification: Some(Notification {
            title: "Break".to_string(),
            descriptions: vec!["You sat for {}.".to_string()],
            timeout: Some(7),
        }),
        sound: None,
        command: None,
    };
    let (title, body, timeout) = compose_notification(&noisy, 300_000).unwrap();
    assert_eq!(title, "Break");
    assert_eq!(body, "You sat for 05:00.");
    assert_eq!(timeout, Some(7));
}

#[test]
fn notification_picks_one_of_the_descriptions() {
    let timer = Timer {
        interval_ms: 1000,
        initial_delay_ms: None,
        decline_centi: 0,
        notification: Some(Notification {
            title: "Break".to_string(),
            descriptions: vec![
                "one {}".to_string(),
                "two {}".to_string(),
                "three {}".to_string(),
            ],
            timeout: None,
        }),
        sound: None,
        command: None,
    };
    for _ in 0..20 {
        let (_, body, _) = compose_notification(&timer, 60_000).unwrap();
        assert!(
            body == "one 01:00" || body == "two 01:00" || body == "three 01:00",
            "unexpected body {body}"
        );
    }
}

#[test]
fn notification_without_descriptions_reports_elapsed() {
    let timer = Timer {
        interval_ms: 1000,
        initial_delay_ms: None,
        decline_centi: 0,
        notification: Some(Notification {
            title: "Break".to_string(),
            descriptions: vec![],
            timeout: Some(0),
        }),
        sound: None,
        command: None,
    };
    let (_, body, timeout) = compose_notification(&timer, 90_000).unwrap();
    assert_eq!(body, "01:30 elapsed");
    assert_eq!(timeout, Some(0));
}

#[test]
fn validate_rejects_bad_catalogs() {
    let empty = catalog(vec![], None);
    let err = empty.validate().unwrap_err();
    assert_eq!(
        err.message(),
        "Configuration error: at least one timer must be configured"
    );

    let zero = catalog(vec![plain_timer(0, 0)], None);
    let err = zero.validate().unwrap_err();
    assert_eq!(
        err.message(),
        "Configuration error: timer intervals must be positive"
    );

    let fine = catalog(vec![plain_timer(1000, 0)], None);
    assert!(fine.validate().is_ok());
}

#[test]
fn default_catalog_has_the_two_breaks() {
    let c = Config::default();
    assert!(c.validate().is_ok());
    assert_eq!(c.timers.len(), 2);
    assert_eq!(c.timers[0].interval_ms, 20 * 60 * 1000);
    assert_eq!(c.timers[0].decline_centi, 0);
    assert_eq!(c.timers[1].interval_ms, 60 * 60 * 1000);
    assert_eq!(c.timers[1].decline_centi, 50);
    let n0 = c.timers[0].notification.as_ref().unwrap();
    assert_eq!(n0.title, "Microbreak");
    assert_eq!(n0.descriptions.len(), 3);
    assert_eq!(n0.timeout, Some(10));
    let n1 = c.timers[1].notification.as_ref().unwrap();
    assert_eq!(n1.title, "Take a break!");
    assert_eq!(n1.timeout, Some(0));
    assert!(c.input_tracking.is_none());
}

#[test]
fn unix_clock_reads_a_plausible_time() {
    // past 2020-01-01 and monotone across two reads up to a second
    let a = blink_timer::get_unix_time();
    let b = blink_timer::get_unix_time();
    assert!(a > 1_577_000_000);
    assert!(b >= a);
}
