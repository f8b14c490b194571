use irq_core::clock::{configure, flash_wait_states, spin_until_ready, ClockPlan};
use irq_core::errors::{ConfigError, StartupError};

fn full_speed_plan() -> ClockPlan {
    ClockPlan {
        hse_hz: 8_000_000,
        pll_prediv: 1,
        pll_mul: 9,
        ahb_div: 1,
        apb1_div: 2,
        apb2_div: 1,
    }
}

#[test]
fn full_speed_plan_comes_out_exact() {
    let t = configure(&full_speed_plan()).unwrap();
    assert_eq!(t.sysclk_hz, 72_000_000);
    assert_eq!(t.ahb_hz, 72_000_000);
    assert_eq!(t.apb1_hz, 36_000_000);
    assert_eq!(t.apb2_hz, 72_000_000);
    assert_eq!(t.flash_wait_states, 2);
}

#[test]
fn overclocked_plan_is_refused() {
    let mut plan = full_speed_plan();
    plan.pll_mul = 10;
    assert_eq!(configure(&plan).unwrap_err(), ConfigError::InvalidClockPlan);
}

#[test]
fn slow_bus_over_limit_is_refused() {
    let mut plan = full_speed_plan();
    plan.apb1_div = 1;
    assert_eq!(configure(&plan).unwrap_err(), ConfigError::InvalidClockPlan);
}

#[test]
fn crystal_out_of_range_is_refused() {
    let mut plan = full_speed_plan();
    plan.hse_hz = 1_000_000;
    assert_eq!(configure(&plan).unwrap_err(), ConfigError::InvalidClockPlan);
}

#[test]
fn zero_divider_plan_is_refused() {
    let mut plan = full_speed_plan();
    plan.ahb_div = 0;
    assert_eq!(configure(&plan).unwrap_err(), ConfigError::InvalidClockPlan);
}

#[test]
fn wait_states_follow_the_thresholds() {
    assert_eq!(flash_wait_states(8_000_000), 0);
    assert_eq!(flash_wait_states(24_000_000), 0);
    assert_eq!(flash_wait_states(24_000_001), 1);
    assert_eq!(flash_wait_states(48_000_000), 1);
    assert_eq!(flash_wait_states(48_000_001), 2);
    assert_eq!(flash_wait_states(72_000_000), 2);
}

#[test]
fn ready_bit_found_at_first_set_poll() {
    let polls = vec![false, false, true, true];
    assert_eq!(spin_until_ready(&polls, 4).unwrap(), 2);
}

#[test]
fn ready_wait_times_out_instead_of_hanging() {
    let polls = vec![false, false, true, true];
    assert_eq!(spin_until_ready(&polls, 2).unwrap_err(), StartupError::NotReady);
    let never = vec![false; 1000];
    assert_eq!(
        spin_until_ready(&never, 1000).unwrap_err(),
        StartupError::NotReady
    );
}
