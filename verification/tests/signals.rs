use rush::signals::{ForegroundSlot, Reaction, SIGINT};

#[test]
fn interrupt_without_a_foreground_child_does_nothing() {
    let slot = ForegroundSlot::new();
    assert_eq!(slot.current(), None);
    assert_eq!(slot.on_signal(SIGINT), Reaction::Ignore);
    assert_eq!(SIGINT, 2);
}

#[test]
fn interrupt_ends_the_foreground_child_only() {
    let mut slot = ForegroundSlot::new();
    slot.record(41);
    assert_eq!(slot.on_signal(SIGINT), Reaction::Kill(41));
    assert_eq!(slot.on_signal(15), Reaction::Ignore);
    assert_eq!(slot.current(), Some(41));

    slot.record(42);
    assert_eq!(slot.current(), Some(42));
    assert_eq!(slot.on_signal(SIGINT), Reaction::Kill(42));

    slot.clear();
    assert_eq!(slot.current(), None);
    assert_eq!(slot.on_signal(SIGINT), Reaction::Ignore);
}
