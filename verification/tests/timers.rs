use irq_core::counter::EventCounter;
use irq_core::cs::InterruptMask;
use irq_core::errors::ConfigError;
use irq_core::timer::{delay_reload, systick_reload_for_one_ms, PeriodicTimer};

#[test]
fn update_frequency_is_input_over_period() {
    // Prescaler 3, reload 4: one update per 12 input cycles. Over 1234
    // cycles — more than a hundred periods — exactly 1234 / 12 fire.
    let mut t = PeriodicTimer::configure(3, 4).unwrap();
    t.start();
    assert_eq!(t.run_cycles(1234), 1234 / 12);
}

#[test]
fn update_fires_exactly_at_period_boundary() {
    let mut t = PeriodicTimer::configure(3, 4).unwrap();
    t.start();
    assert_eq!(t.run_cycles(11), 0);
    assert!(!t.is_update_pending());
    assert_eq!(t.run_cycles(1), 1);
    assert!(t.is_update_pending());
}

#[test]
fn service_records_one_event_per_update() {
    let mut t = PeriodicTimer::configure(2, 3).unwrap();
    t.start();
    t.run_cycles(6);
    let mut events = EventCounter::new();
    let mut mask = InterruptMask::startup();
    let tok = mask.enter();
    assert!(t.service(&tok, &mut events));
    mask.exit(tok);
    assert_eq!(events.read(), 1);
    assert!(!t.is_update_pending());
    let tok = mask.enter();
    assert!(!t.service(&tok, &mut events));
    mask.exit(tok);
    assert_eq!(events.read(), 1);
}

#[test]
fn stopped_timer_ignores_cycles() {
    let mut t = PeriodicTimer::configure(2, 3).unwrap();
    assert!(!t.is_running());
    assert!(!t.step_cycle());
    assert!(!t.is_update_pending());
    t.start();
    t.stop();
    assert_eq!(t.run_cycles(0), 0);
}

#[test]
fn zero_divider_is_rejected() {
    assert_eq!(
        PeriodicTimer::configure(0, 5).unwrap_err(),
        ConfigError::InvalidTimerPeriod
    );
    assert_eq!(
        PeriodicTimer::configure(5, 0).unwrap_err(),
        ConfigError::InvalidTimerPeriod
    );
}

#[test]
fn oversized_period_is_rejected() {
    assert_eq!(
        PeriodicTimer::configure(0x1_0000, 0x1_0000).unwrap_err(),
        ConfigError::InvalidTimerPeriod
    );
    assert!(PeriodicTimer::configure(0xffff, 0x1_0000).is_ok());
}

#[test]
fn dividers_change_only_while_stopped() {
    let mut t = PeriodicTimer::configure(2, 3).unwrap();
    assert!(t.set_prescaler(7).is_ok());
    assert!(t.set_reload(9).is_ok());
    assert_eq!(
        t.set_reload(0).unwrap_err(),
        ConfigError::InvalidTimerPeriod
    );
    t.start();
    assert_eq!(t.run_cycles(63), 1);
}

#[test]
fn one_ms_reload_at_full_speed() {
    assert_eq!(systick_reload_for_one_ms(72_000_000).unwrap(), 72_000);
    assert_eq!(
        systick_reload_for_one_ms(999).unwrap_err(),
        ConfigError::InvalidTimerPeriod
    );
}

#[test]
fn delay_reload_matches_hand_computation() {
    // 72 MHz through a prescaler of 8000 gives 9 ticks per millisecond,
    // so a two-second delay loads 18000.
    assert_eq!(delay_reload(72_000_000, 8000, 2000).unwrap(), 18_000);
}

#[test]
fn delay_reload_rejects_bad_dividers() {
    assert_eq!(
        delay_reload(72_000_000, 0, 10).unwrap_err(),
        ConfigError::InvalidTimerPeriod
    );
    assert_eq!(
        delay_reload(500, 1, 10).unwrap_err(),
        ConfigError::InvalidTimerPeriod
    );
    assert_eq!(
        delay_reload(72_000_000, 8000, 500_000_000).unwrap_err(),
        ConfigError::InvalidTimerPeriod
    );
}

#[test]
fn core_clock_tick_counting() {
    // One update per core-clock second, as a tick interrupt is set up:
    // prescaler 1, reload equal to the core frequency.
    let mut t = PeriodicTimer::configure(1, 72_000_000).unwrap();
    t.start();
    assert_eq!(t.run_cycles(72_000_000), 1);
}
