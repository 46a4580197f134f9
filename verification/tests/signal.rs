use radio_adapter::signal::SignalCell;

#[test]
fn fresh_cell_holds_nothing() {
    let mut cell: SignalCell<bool> = SignalCell::new();
    assert_eq!(cell.try_take(), None);
}

#[test]
fn notification_before_waiter_wakes_first_wait_exactly_once() {
    let mut cell: SignalCell<bool> = SignalCell::new();
    // Fired from the interrupt context before anyone waits.
    cell.signal(true);
    // The first subsequent wait observes it...
    assert_eq!(cell.try_take(), Some(true));
    // ...and a second wait with no intervening signal finds nothing, so
    // the waiting task would stay suspended.
    assert_eq!(cell.try_take(), None);
}

#[test]
fn later_signal_overwrites_pending_notification() {
    let mut cell: SignalCell<bool> = SignalCell::new();
    cell.signal(true);
    cell.signal(false);
    assert_eq!(cell.try_take(), Some(false));
    assert_eq!(cell.try_take(), None);
}

#[test]
fn reset_clears_stale_notification() {
    let mut cell: SignalCell<()> = SignalCell::new();
    cell.signal(());
    cell.reset();
    assert_eq!(cell.try_take(), None);
}

#[test]
fn reset_then_signal_delivers_the_new_notification() {
    let mut cell: SignalCell<bool> = SignalCell::new();
    cell.signal(false);
    cell.reset();
    cell.signal(true);
    assert_eq!(cell.try_take(), Some(true));
}
