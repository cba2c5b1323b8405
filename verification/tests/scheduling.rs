use berlin_clock::clock::TimeReading;
use berlin_clock::lamps::{derive_group_state, derive_second_state, GroupKind, LampColor};
use berlin_clock::scheduler::{
    evaluate_cycle, run_cycle, wake_signal_due, RedrawCache, HOUR_SENTINEL, MINUTE_SENTINEL,
    SETTLE_LIMIT,
};

fn reading(hour: u32, minute: u32, second: u32) -> TimeReading {
    TimeReading { hour, minute, second }
}

#[test]
fn fresh_cache_holds_sentinels() {
    let cache = RedrawCache::new();
    assert_eq!(cache.last_minute, MINUTE_SENTINEL);
    assert_eq!(cache.last_hour, HOUR_SENTINEL);
    assert_eq!(cache.settle_counter, 0);
}

#[test]
fn first_cycle_forces_full_redraw() {
    // The sentinels never equal a valid minute or hour, so whatever time the
    // first cycle reads, every group is redrawn.
    for minute in [0u32, 13, 59] {
        let mut cache = RedrawCache::new();
        let decision = evaluate_cycle(&mut cache, reading(7, minute, 30));
        assert!(decision.redraw_minutes);
        assert!(decision.redraw_hours);
        assert!(decision.redraw_seconds);
        assert_eq!(cache.last_minute, minute);
        assert_eq!(cache.last_hour, 7);
    }
}

#[test]
fn settle_counter_progression_after_minute_change() {
    let mut cache = RedrawCache::new();
    let t = reading(10, 20, 0);
    // The counter climbs 1, 2, 3 over the cycles after the change, then
    // saturates.
    let mut observed = Vec::new();
    for _ in 0..6 {
        evaluate_cycle(&mut cache, t);
        observed.push(cache.settle_counter);
    }
    assert_eq!(observed, vec![1, 2, 3, 3, 3, 3]);

    // A minute change resets the climb.
    let t2 = reading(10, 21, 0);
    evaluate_cycle(&mut cache, t2);
    assert_eq!(cache.settle_counter, 1);
    evaluate_cycle(&mut cache, t2);
    assert_eq!(cache.settle_counter, 2);
}

#[test]
fn settle_counter_never_decreases_within_a_minute() {
    let mut cache = RedrawCache::new();
    let t = reading(23, 59, 58);
    let mut previous = 0u32;
    for _ in 0..10 {
        evaluate_cycle(&mut cache, t);
        assert!(cache.settle_counter >= previous);
        assert!(cache.settle_counter <= SETTLE_LIMIT);
        previous = cache.settle_counter;
    }
}

#[test]
fn saturated_cache_suppresses_minute_and_hour_redraw() {
    let mut cache = RedrawCache::new();
    let t = reading(14, 37, 8);
    // Drive the counter to saturation.
    for _ in 0..4 {
        evaluate_cycle(&mut cache, t);
    }
    assert_eq!(cache.settle_counter, SETTLE_LIMIT);

    // Two consecutive cycles with the same minute and a saturated counter:
    // the minute and hour groups are suppressed, the second indicator is
    // still redrawn.
    for _ in 0..2 {
        let decision = evaluate_cycle(&mut cache, t);
        assert!(!decision.redraw_minutes);
        assert!(!decision.redraw_hours);
        assert!(decision.redraw_seconds);
        assert_eq!(cache.settle_counter, SETTLE_LIMIT);
    }
}

#[test]
fn minute_change_redraws_hours_too() {
    let mut cache = RedrawCache::new();
    let t = reading(9, 15, 0);
    for _ in 0..5 {
        evaluate_cycle(&mut cache, t);
    }
    // Same hour, new minute: the settle reset opens the hour gate as well.
    let decision = evaluate_cycle(&mut cache, reading(9, 16, 2));
    assert!(decision.redraw_minutes);
    assert!(decision.redraw_hours);
    assert_eq!(cache.settle_counter, 1);
}

#[test]
fn hour_change_redraws_hours_only() {
    let mut cache = RedrawCache::new();
    let t = reading(9, 59, 0);
    for _ in 0..5 {
        evaluate_cycle(&mut cache, t);
    }
    // An hour change with an unchanged minute (the clock jumped backward):
    // only the hour gate opens.
    let decision = evaluate_cycle(&mut cache, reading(8, 59, 2));
    assert!(!decision.redraw_minutes);
    assert!(decision.redraw_hours);
    assert!(decision.redraw_seconds);
    assert_eq!(cache.last_hour, 8);
}

#[test]
fn wake_signal_follows_parity_flips() {
    assert!(!wake_signal_due(10, 10));
    assert!(!wake_signal_due(10, 12));
    assert!(wake_signal_due(10, 11));
    assert!(wake_signal_due(59, 0));
    assert!(!wake_signal_due(57, 59));
}

#[test]
fn live_cycle_is_consistent_with_its_reading() {
    let mut cache = RedrawCache::new();
    let frame = run_cycle(&mut cache);

    // The reading came from the real clock: only its bounds are promised.
    assert!(frame.time.hour < 24);
    assert!(frame.time.minute < 60);
    assert!(frame.time.second < 60);

    // The first cycle after startup always redraws everything.
    assert!(frame.decision.redraw_minutes);
    assert!(frame.decision.redraw_hours);
    assert!(frame.decision.redraw_seconds);

    // The lamp states are exactly those derived from the frame's own reading.
    assert_eq!(
        frame.hour_fives,
        derive_group_state(GroupKind::HourFives, frame.time.hour / 5)
    );
    assert_eq!(
        frame.hour_ones,
        derive_group_state(GroupKind::HourOnes, frame.time.hour % 5)
    );
    assert_eq!(
        frame.minute_fives,
        derive_group_state(GroupKind::MinuteFives, frame.time.minute / 5)
    );
    assert_eq!(
        frame.minute_ones,
        derive_group_state(GroupKind::MinuteOnes, frame.time.minute % 5)
    );
    assert_eq!(frame.second_lamp, derive_second_state(frame.time.second));
    if frame.time.second % 2 == 1 {
        assert_eq!(frame.second_lamp, LampColor::Green);
    } else {
        assert_eq!(frame.second_lamp, LampColor::Grey);
    }

    // The cache now tracks the observed reading.
    assert_eq!(cache.last_minute, frame.time.minute);
    assert_eq!(cache.last_hour, frame.time.hour);
    assert_eq!(cache.settle_counter, 1);
}
