use irq_core::debounce::DebounceGate;
use irq_core::errors::ConfigError;
use irq_core::pin::Level;

fn make_debouncer(settle: u32) -> DebounceGate {
    DebounceGate::new(settle, Level::Low).unwrap()
}

#[test]
fn committed_press_counts_once() {
    let mut g = make_debouncer(3);
    let samples = vec![
        Level::Low,
        Level::Low,
        Level::Low,
        Level::High,
        Level::High,
        Level::High,
    ];
    assert_eq!(g.run(&samples), 1);
}

#[test]
fn short_bursts_never_count() {
    let mut g = make_debouncer(3);
    let samples = vec![
        Level::Low,
        Level::Low,
        Level::High,
        Level::High,
        Level::High,
        Level::Low,
        Level::High,
        Level::High,
        Level::High,
    ];
    assert_eq!(g.run(&samples), 0);
}

#[test]
fn bounce_during_release_is_absorbed() {
    let mut g = make_debouncer(3);
    let samples = vec![
        Level::Low,
        Level::Low,
        Level::Low,
        Level::High,
        Level::Low,
        Level::High,
        Level::High,
        Level::High,
    ];
    assert_eq!(g.run(&samples), 1);
}

#[test]
fn press_shorter_than_settle_is_dropped() {
    let mut g = make_debouncer(3);
    let samples = vec![
        Level::Low,
        Level::High,
        Level::Low,
        Level::Low,
        Level::Low,
        Level::High,
        Level::High,
        Level::High,
    ];
    assert_eq!(g.run(&samples), 1);
}

#[test]
fn commit_lands_on_completing_sample() {
    let mut g = make_debouncer(2);
    assert!(!g.step(Level::Low));
    assert!(!g.step(Level::Low));
    assert!(!g.step(Level::High));
    assert!(g.step(Level::High));
    assert!(!g.step(Level::High));
}

#[test]
fn two_presses_count_twice() {
    let mut g = make_debouncer(2);
    let one_press = [Level::Low, Level::Low, Level::High, Level::High];
    let mut samples = Vec::new();
    samples.extend_from_slice(&one_press);
    samples.extend_from_slice(&one_press);
    assert_eq!(g.run(&samples), 2);
}

#[test]
fn wait_for_event_finds_a_press() {
    let mut g = make_debouncer(2);
    let samples = vec![
        Level::High,
        Level::Low,
        Level::Low,
        Level::High,
        Level::High,
        Level::High,
    ];
    assert!(g.wait_for_event(&samples));
}

#[test]
fn wait_for_event_on_quiet_line_reports_none() {
    let mut g = make_debouncer(2);
    let samples = vec![Level::High, Level::High, Level::Low, Level::High];
    assert!(!g.wait_for_event(&samples));
}

#[test]
fn zero_settle_time_is_rejected() {
    assert_eq!(
        DebounceGate::new(0, Level::Low).unwrap_err(),
        ConfigError::InvalidSettleTime
    );
}

#[test]
fn settle_time_one_commits_on_release() {
    let mut g = make_debouncer(1);
    let samples = vec![Level::Low, Level::High];
    assert_eq!(g.run(&samples), 1);
}
