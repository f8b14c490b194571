use irq_core::alarm::{AlarmTick, AlarmTimer};
use irq_core::counter::EventCounter;
use irq_core::cs::InterruptMask;
use irq_core::errors::ConfigError;

#[test]
fn rearm_before_clear_leaves_no_second_fire() {
    let mut a = AlarmTimer::new(100).unwrap();
    a.arm(5);
    assert_eq!(a.run_ticks(5), 1);
    assert!(a.is_match_pending());
    assert_eq!(a.clock_value(), 5);

    let mut events = EventCounter::new();
    let mut mask = InterruptMask::startup();
    let tok = mask.enter();
    assert!(a.service(&tok, &mut events, 10));
    mask.exit(tok);
    assert_eq!(events.read(), 1);
    // The clock still stands at the old compare value, yet no match is
    // latched: the rearm moved the compare away before the clear.
    assert_eq!(a.clock_value(), 5);
    assert!(!a.is_match_pending());
    assert_eq!(a.compare_value(), 15);
}

#[test]
fn next_fire_comes_exactly_one_period_later() {
    let mut a = AlarmTimer::new(100).unwrap();
    a.arm(5);
    a.run_ticks(5);
    let mut events = EventCounter::new();
    let mut mask = InterruptMask::startup();
    let tok = mask.enter();
    a.service(&tok, &mut events, 10);
    mask.exit(tok);
    // Nine ticks: nothing. The tenth: the next fire.
    assert_eq!(a.run_ticks(9), 0);
    assert!(!a.is_match_pending());
    assert_eq!(a.run_ticks(1), 1);
    assert!(a.is_match_pending());
    assert_eq!(a.clock_value(), 15);
}

#[test]
fn clear_without_rearm_relatches_the_match() {
    let mut a = AlarmTimer::new(100).unwrap();
    a.arm(5);
    a.run_ticks(5);
    assert!(a.is_match_pending());
    // Acknowledging while the clock still equals the compare value
    // leaves the flag latched: the wrong handler order goes nowhere.
    a.ack();
    assert!(a.is_match_pending());
    // Rearming first, then acknowledging, ends the match.
    a.set_compare(15);
    a.ack();
    assert!(!a.is_match_pending());
}

#[test]
fn unserviced_match_is_detected_as_missed() {
    let mut a = AlarmTimer::new(8).unwrap();
    a.arm(3);
    assert_eq!(a.run_ticks(3), 1);
    // A full lap with the handler never running: the next match on the
    // same compare value is reported missed, not silently dropped.
    let mut missed = 0;
    for _ in 0..8 {
        match a.tick() {
            AlarmTick::Missed => missed += 1,
            AlarmTick::Fired => panic!("a latched alarm must not fire again"),
            AlarmTick::Quiet => {}
        }
    }
    assert_eq!(missed, 1);
    let mut events = EventCounter::new();
    events.record_missed();
    assert_eq!(events.read_missed(), 1);
    assert_eq!(events.read(), 0);
}

#[test]
fn periodic_rearm_sustains_one_fire_per_period() {
    let mut a = AlarmTimer::new(86_400).unwrap();
    a.arm(60);
    let mut mask = InterruptMask::startup();
    let mut events = EventCounter::new();
    irq_core::system::run_alarm_periods(&mut a, &mut mask, &mut events, 60, 5);
    assert_eq!(events.read(), 5);
    assert_eq!(events.read_missed(), 0);
    assert!(!a.is_match_pending());
    assert_eq!(a.clock_value(), 300);
    assert_eq!(a.compare_value(), 360);
}

#[test]
fn disabled_alarm_never_fires() {
    let mut a = AlarmTimer::new(10).unwrap();
    a.arm(4);
    a.disable();
    for _ in 0..20 {
        assert_eq!(a.tick(), AlarmTick::Quiet);
    }
    assert!(!a.is_match_pending());
}

#[test]
fn zero_modulus_is_rejected() {
    assert_eq!(AlarmTimer::new(0).unwrap_err(), ConfigError::InvalidClockPlan);
}

#[test]
fn service_without_match_does_nothing() {
    let mut a = AlarmTimer::new(100).unwrap();
    a.arm(5);
    let mut events = EventCounter::new();
    let mut mask = InterruptMask::startup();
    let tok = mask.enter();
    assert!(!a.service(&tok, &mut events, 10));
    mask.exit(tok);
    assert_eq!(events.read(), 0);
    assert_eq!(a.compare_value(), 5);
}
