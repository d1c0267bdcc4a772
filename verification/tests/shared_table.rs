use ant_bindings::shared::SharedSlotTable;
use ant_bindings::slots::{MAX_SLOTS, NO_SLOT, PENDING, READY, WAKE_AGAIN};

#[test]
fn shared_table_issues_every_slot_once() {
    let table = SharedSlotTable::new();
    for expected in 0..MAX_SLOTS {
        assert_eq!(table.alloc_slot(), expected as i32);
    }
    assert_eq!(table.alloc_slot(), NO_SLOT);
    table.free_slot(42);
    assert_eq!(table.alloc_slot(), 42);
    assert_eq!(table.alloc_slot(), NO_SLOT);
}

#[test]
fn shared_table_reports_callbacks() {
    let table = SharedSlotTable::new();
    let s = table.alloc_slot();
    assert_eq!(table.get_result(s), PENDING);
    table.callback(s as u64, WAKE_AGAIN);
    assert_eq!(table.get_result(s), WAKE_AGAIN);
    table.reset_result(s);
    assert_eq!(table.get_result(s), PENDING);
    table.callback(s as u64, READY);
    assert_eq!(table.get_result(s), READY);
    table.free_slot(s);
    assert_eq!(table.get_result(s), PENDING);
    assert_eq!(table.alloc_slot(), s);
    assert_eq!(table.get_result(s), PENDING);
}

#[test]
fn shared_table_ignores_out_of_range() {
    let table = SharedSlotTable::new();
    let s = table.alloc_slot();
    table.callback(s as u64, READY);
    for bad in [-1, MAX_SLOTS as i32, i32::MIN, i32::MAX] {
        assert_eq!(table.get_result(bad), PENDING);
        table.free_slot(bad);
        table.reset_result(bad);
    }
    table.callback(MAX_SLOTS as u64, WAKE_AGAIN);
    table.callback(u64::MAX, WAKE_AGAIN);
    table.callback(1 << 32, WAKE_AGAIN);
    assert_eq!(table.get_result(s), READY);
    assert_eq!(table.alloc_slot(), 1);
}

#[test]
fn shared_table_handles_are_independent_views_of_one_table() {
    let table = SharedSlotTable::new();
    let first = &table;
    let second = &table;
    let a = first.alloc_slot();
    let b = second.alloc_slot();
    assert!(a != b);
    second.callback(a as u64, READY);
    first.callback(b as u64, WAKE_AGAIN);
    assert_eq!(first.get_result(a), READY);
    assert_eq!(second.get_result(b), WAKE_AGAIN);
}

#[test]
fn shared_table_ignores_other_codes() {
    let table = SharedSlotTable::new();
    let s = table.alloc_slot();
    for code in [5, -1, 2, i8::MIN, i8::MAX] {
        table.callback(s as u64, code);
        assert_eq!(table.get_result(s), PENDING);
    }
    table.callback(s as u64, WAKE_AGAIN);
    table.callback(s as u64, 5);
    assert_eq!(table.get_result(s), WAKE_AGAIN);
}

#[test]
fn shared_table_ignores_the_release_of_a_free_slot() {
    let table = SharedSlotTable::new();
    table.callback(3, READY);
    assert_eq!(table.get_result(3), READY);
    table.free_slot(3);
    assert_eq!(table.get_result(3), READY);
    let s = table.alloc_slot();
    assert_eq!(s, 0);
    table.free_slot(s);
    table.callback(s as u64, READY);
    table.free_slot(s);
    assert_eq!(table.get_result(s), READY);
    assert_eq!(table.alloc_slot(), 0);
    assert_eq!(table.get_result(0), PENDING);
}
