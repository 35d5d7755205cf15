//! Callback registry behavior.

use hitchcock::registry::{CallbackSlot, WindowCallbacks};

#[test]
fn global_slot_set_and_clear() {
    let mut slot: CallbackSlot<u32> = CallbackSlot::new();
    assert_eq!(*slot.current(), None);

    let install = slot.set(Some(7));
    assert!(install);
    assert_eq!(*slot.current(), Some(7));

    let install = slot.set(None);
    assert!(!install);
    assert_eq!(*slot.current(), None);
}

#[test]
fn global_slot_clear_when_already_unset() {
    let mut slot: CallbackSlot<u32> = CallbackSlot::new();
    let install = slot.set(None);
    assert!(!install);
    assert_eq!(*slot.current(), None);
}

#[test]
fn global_slot_replaces_previous_callback() {
    let mut slot: CallbackSlot<u32> = CallbackSlot::new();
    slot.set(Some(1));
    slot.set(Some(2));
    assert_eq!(*slot.current(), Some(2));
}

#[test]
fn window_table_register_and_lookup() {
    let mut table: WindowCallbacks<u32> = WindowCallbacks::new();
    assert_eq!(table.lookup(0x10), None);

    let install = table.register(0x10, Some(5));
    assert!(install);
    assert_eq!(table.lookup(0x10), Some(&Some(5)));
    assert_eq!(table.lookup(0x20), None);

    let install = table.register(0x20, Some(6));
    assert!(install);
    assert_eq!(table.lookup(0x10), Some(&Some(5)));
    assert_eq!(table.lookup(0x20), Some(&Some(6)));
}

#[test]
fn window_table_clear_leaves_no_residual_dispatch() {
    let mut table: WindowCallbacks<u32> = WindowCallbacks::new();
    table.register(0x10, Some(5));
    let install = table.register(0x10, None);
    assert!(!install);
    assert_eq!(table.lookup(0x10), Some(&None));
}

#[test]
fn window_table_clear_when_already_unset() {
    let mut table: WindowCallbacks<u32> = WindowCallbacks::new();
    table.register(0x10, None);
    let install = table.register(0x10, None);
    assert!(!install);
    assert_eq!(table.lookup(0x10), Some(&None));
}

#[test]
fn window_table_replaces_per_window() {
    let mut table: WindowCallbacks<u32> = WindowCallbacks::new();
    table.register(0x10, Some(1));
    table.register(0x10, Some(2));
    assert_eq!(table.lookup(0x10), Some(&Some(2)));
}
