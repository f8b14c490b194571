use irq_core::cs::{InterruptMask, SharedCell};
use irq_core::errors::ConfigError;
use irq_core::system::{run_shared_counter, SimEvent};

#[test]
fn ten_thousand_interrupts_all_land() {
    let mut events = Vec::new();
    for k in 0..10_000 {
        events.push(SimEvent::Interrupt);
        if k % 100 == 0 {
            events.push(SimEvent::Read);
        }
    }
    events.push(SimEvent::Read);
    let (count, reads) = run_shared_counter(&events);
    assert_eq!(count, 10_000);
    assert_eq!(*reads.last().unwrap(), 10_000);
}

#[test]
fn reads_never_decrease() {
    let mut events = Vec::new();
    for _ in 0..50 {
        events.push(SimEvent::Read);
        events.push(SimEvent::Interrupt);
        events.push(SimEvent::Interrupt);
        events.push(SimEvent::Read);
    }
    let (_, reads) = run_shared_counter(&events);
    for pair in reads.windows(2) {
        assert!(pair[0] <= pair[1]);
    }
}

#[test]
fn every_read_sees_the_exact_prefix_count() {
    let mut events = Vec::new();
    let mut expected = Vec::new();
    let mut delivered: u32 = 0;
    for k in 0..200 {
        if k % 3 == 0 {
            events.push(SimEvent::Read);
            expected.push(delivered);
        } else {
            events.push(SimEvent::Interrupt);
            delivered += 1;
        }
    }
    let (count, reads) = run_shared_counter(&events);
    assert_eq!(count, delivered);
    assert_eq!(reads, expected);
}

#[test]
fn publishing_twice_is_refused() {
    let mut cell: SharedCell<u32> = SharedCell::new();
    assert!(cell.publish(7).is_ok());
    assert_eq!(cell.publish(8).unwrap_err(), ConfigError::AlreadyPublished);
    let mut mask = InterruptMask::startup();
    let tok = mask.enter();
    assert_eq!(cell.read(&tok), 7);
    mask.exit(tok);
}

#[test]
fn replace_hands_back_the_old_contents() {
    let mut cell: SharedCell<u32> = SharedCell::new();
    let mut mask = InterruptMask::startup();
    let tok = mask.enter();
    assert_eq!(cell.replace(&tok, Some(3)), None);
    assert_eq!(cell.replace(&tok, Some(4)), Some(3));
    cell.write(&tok, 5);
    assert_eq!(cell.read(&tok), 5);
    mask.exit(tok);
}
