use irq_core::counter::EventCounter;
use irq_core::cs::InterruptMask;
use irq_core::edge::{Edge, EdgePolicy, EdgeSource};
use irq_core::pin::{Level, Pin};

#[test]
fn one_edge_counts_once_even_when_redelivered() {
    let mut line = EdgeSource::configure(14, EdgePolicy::Rising);
    line.unmask();
    line.deliver_edge(Edge::Rising);
    // The same edge arrives again before the handler acknowledged.
    line.deliver_edge(Edge::Rising);
    assert!(line.is_pending());

    let mut events = EventCounter::new();
    let mut mask = InterruptMask::startup();
    let tok = mask.enter();
    assert!(line.service_count(&tok, &mut events));
    mask.exit(tok);
    assert_eq!(events.read(), 1);
    assert!(!line.is_pending());

    // The acknowledge preceded the handler's return, so a second entry
    // of the vector finds nothing to do.
    let tok = mask.enter();
    assert!(!line.service_count(&tok, &mut events));
    mask.exit(tok);
    assert_eq!(events.read(), 1);
}

#[test]
fn policy_filters_edge_direction() {
    let mut line = EdgeSource::configure(1, EdgePolicy::Rising);
    line.unmask();
    line.deliver_edge(Edge::Falling);
    assert!(!line.is_pending());
    line.deliver_edge(Edge::Rising);
    assert!(line.is_pending());
}

#[test]
fn both_policy_takes_either_direction() {
    let mut line = EdgeSource::configure(1, EdgePolicy::Both);
    line.unmask();
    line.deliver_edge(Edge::Falling);
    assert!(line.is_pending());
}

#[test]
fn masked_line_latches_nothing() {
    let mut line = EdgeSource::configure(1, EdgePolicy::Both);
    assert!(!line.is_enabled());
    line.deliver_edge(Edge::Rising);
    assert!(!line.is_pending());
}

#[test]
fn key_interrupt_toggles_the_output() {
    let mut line = EdgeSource::configure(1, EdgePolicy::Both);
    line.unmask();
    let mut led = Pin::new(Level::High, Level::High);
    let mut mask = InterruptMask::startup();

    line.deliver_edge(Edge::Falling);
    let tok = mask.enter();
    assert!(line.service_toggle(&tok, &mut led));
    mask.exit(tok);
    assert!(led.is_set_low());

    // No pending edge: the shared vector was entered for another line,
    // and the output stays put.
    let tok = mask.enter();
    assert!(!line.service_toggle(&tok, &mut led));
    mask.exit(tok);
    assert!(led.is_set_low());
}

#[test]
fn unclaimed_edge_is_counted_as_missed() {
    let mut line = EdgeSource::configure(9, EdgePolicy::Both);
    line.unmask();
    line.deliver_edge(Edge::Rising);
    let mut events = EventCounter::new();
    let mut mask = InterruptMask::startup();
    let tok = mask.enter();
    assert!(line.service_unclaimed(&tok, &mut events));
    mask.exit(tok);
    assert_eq!(events.read(), 0);
    assert_eq!(events.read_missed(), 1);
    assert!(!line.is_pending());
}

#[test]
fn pin_toggle_flips_only_the_output() {
    let mut p = Pin::new(Level::High, Level::Low);
    p.toggle();
    assert!(p.is_set_low());
    assert!(p.is_low());
    p.toggle();
    assert!(p.is_set_high());
    p.set_state(Level::Low);
    assert!(p.is_set_low());
    p.drive_input(Level::High);
    assert!(p.is_high());
    assert!(p.is_set_low());
}
