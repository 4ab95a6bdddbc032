//! Tests for the opaque handle protocol: borrow keeps the count, a clone
//! for async use is balanced by one release, and a single release
//! destroys the last reference — not before.

use lancedb_ffi::error::ErrorSlot;
use lancedb_ffi::handle::HandleTable;
use lancedb_ffi::table::{table_close, table_get_name, table_is_open, TableState};

#[test]
fn test_borrow_many_then_single_release_destroys() {
    let mut tables: HandleTable<TableState> = HandleTable::new();
    let h = tables.create(TableState { name: "my_table".to_string() });

    // many borrows in a row change nothing
    for _ in 0..5 {
        let state = tables.borrow(h);
        assert_eq!(state.name, "my_table");
    }

    // one release destroys the object (count was one), and only then
    tables.release(h);
    let mut errors = ErrorSlot::new();
    // the handle is gone: creating a new object reuses nothing
    let h2 = tables.create(TableState { name: "other".to_string() });
    assert_ne!(h, h2);
    assert_eq!(table_get_name(&tables, h2, &mut errors).unwrap(), "other");
}

#[test]
fn test_clone_for_async_is_balanced_by_release() {
    let mut tables: HandleTable<TableState> = HandleTable::new();
    let h = tables.create(TableState { name: "t".to_string() });

    // the async task takes its own reference...
    let task_handle = tables.clone_for_async(h);
    assert_eq!(task_handle, h);

    // ...the caller's handle stays usable while the task runs...
    assert_eq!(tables.borrow(h).name, "t");

    // ...and the task's implicit drop brings the count back: the
    // caller's own release then destroys the object.
    tables.release(task_handle);
    assert_eq!(tables.borrow(h).name, "t");
    tables.release(h);
}

#[test]
fn table_tests_test_table_close_null_is_safe() {
    let mut tables: HandleTable<TableState> = HandleTable::new();
    table_close(&mut tables, 0);
}

#[test]
fn ffi_tests_test_table_close_null_is_safe() {
    let mut tables: HandleTable<TableState> = HandleTable::new();
    table_close(&mut tables, 0);
}

#[test]
fn table_tests_test_table_is_open() {
    let mut tables: HandleTable<TableState> = HandleTable::new();
    let h = tables.create(TableState { name: "open_table".to_string() });

    assert!(table_is_open(h));
    assert!(!table_is_open(0));

    table_close(&mut tables, h);
}

#[test]
fn ffi_tests_test_table_is_open() {
    let mut tables: HandleTable<TableState> = HandleTable::new();
    let h = tables.create(TableState { name: "open_table".to_string() });
    assert!(table_is_open(h));
    assert!(!table_is_open(0));
    table_close(&mut tables, h);
}

#[test]
fn test_contains_tracks_liveness() {
    let mut tables: HandleTable<TableState> = HandleTable::new();
    assert!(!tables.contains(0));
    assert!(!tables.contains(1));
    let h = tables.create(TableState { name: "t".to_string() });
    assert!(tables.contains(h));
    tables.release(h);
    assert!(!tables.contains(h));
}

#[test]
fn test_swap_value_exchanges_without_count_change() {
    let mut tables: HandleTable<TableState> = HandleTable::new();
    let h = tables.create(TableState { name: "before".to_string() });
    let mut scratch = TableState { name: "after".to_string() };
    tables.swap_value(h, &mut scratch);
    assert_eq!(scratch.name, "before");
    assert_eq!(tables.borrow(h).name, "after");
    tables.release(h);
    assert!(!tables.contains(h));
}

#[test]
fn test_table_get_name_does_not_consume_pointer() {
    let mut tables: HandleTable<TableState> = HandleTable::new();
    let h = tables.create(TableState { name: "my_table".to_string() });
    let mut errors = ErrorSlot::new();

    let name1 = table_get_name(&tables, h, &mut errors);
    let name2 = table_get_name(&tables, h, &mut errors);
    let name3 = table_get_name(&tables, h, &mut errors);

    assert!(name1.is_some());
    assert_eq!(name1.unwrap(), "my_table");
    assert!(name2.is_some());
    assert!(name3.is_some());

    table_close(&mut tables, h);
}

#[test]
fn test_table_get_name_interior_nul_sets_last_error() {
    let mut tables: HandleTable<TableState> = HandleTable::new();
    let h = tables.create(TableState { name: "bad\u{0}name".to_string() });
    let mut errors = ErrorSlot::new();

    assert!(table_get_name(&tables, h, &mut errors).is_none());
    assert!(errors.take_last_error().is_some());
    assert!(errors.take_last_error().is_none());
}
