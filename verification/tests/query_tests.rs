//! Tests for query handles: creation borrows the table, the builder
//! steps return fresh handles, and the free routines are null-safe.

use lancedb_ffi::handle::HandleTable;
use lancedb_ffi::query::{
    query_free, query_nearest_to, table_create_query, vector_query_column, vector_query_free,
    QueryState, VectorQueryState,
};
use lancedb_ffi::table::{table_close, TableState};

#[test]
fn test_table_create_query_does_not_consume_pointer() {
    let mut tables: HandleTable<TableState> = HandleTable::new();
    let mut queries: HandleTable<QueryState> = HandleTable::new();
    let table = tables.create(TableState { name: "query_table".to_string() });

    let query1 = table_create_query(&tables, &mut queries, table);
    let query2 = table_create_query(&tables, &mut queries, table);

    assert_ne!(query1, 0);
    assert_ne!(query2, 0);
    assert_ne!(query1, query2);

    // the table is still usable after creating queries
    assert_eq!(tables.borrow(table).name, "query_table");

    query_free(&mut queries, query1);
    query_free(&mut queries, query2);
    table_close(&mut tables, table);
}

#[test]
fn query_tests_test_query_free_null_is_safe() {
    let mut queries: HandleTable<QueryState> = HandleTable::new();
    query_free(&mut queries, 0);
}

#[test]
fn ffi_tests_test_query_free_null_is_safe() {
    let mut queries: HandleTable<QueryState> = HandleTable::new();
    query_free(&mut queries, 0);
}

#[test]
fn query_tests_test_vector_query_free_null_is_safe() {
    let mut vector_queries: HandleTable<VectorQueryState> = HandleTable::new();
    vector_query_free(&mut vector_queries, 0);
}

#[test]
fn ffi_tests_test_vector_query_free_null_is_safe() {
    let mut vector_queries: HandleTable<VectorQueryState> = HandleTable::new();
    vector_query_free(&mut vector_queries, 0);
}

#[test]
fn test_query_nearest_to_null_vector_is_error() {
    let mut tables: HandleTable<TableState> = HandleTable::new();
    let mut queries: HandleTable<QueryState> = HandleTable::new();
    let mut vector_queries: HandleTable<VectorQueryState> = HandleTable::new();
    let table = tables.create(TableState { name: "nearest_null".to_string() });
    let query = table_create_query(&tables, &mut queries, table);

    assert!(query_nearest_to(&queries, &mut vector_queries, query, None).is_err());

    query_free(&mut queries, query);
    table_close(&mut tables, table);
}

#[test]
fn test_query_nearest_to_empty_vector_succeeds_at_build_time() {
    let mut tables: HandleTable<TableState> = HandleTable::new();
    let mut queries: HandleTable<QueryState> = HandleTable::new();
    let mut vector_queries: HandleTable<VectorQueryState> = HandleTable::new();
    let table = tables.create(TableState { name: "nearest_empty".to_string() });
    let query = table_create_query(&tables, &mut queries, table);

    let vq = query_nearest_to(&queries, &mut vector_queries, query, Some(0)).unwrap();
    assert_ne!(vq, 0);

    vector_query_free(&mut vector_queries, vq);
    query_free(&mut queries, query);
    table_close(&mut tables, table);
}

#[test]
fn test_vector_query_column_returns_new_pointer() {
    let mut tables: HandleTable<TableState> = HandleTable::new();
    let mut queries: HandleTable<QueryState> = HandleTable::new();
    let mut vector_queries: HandleTable<VectorQueryState> = HandleTable::new();
    let table = tables.create(TableState { name: "vq_col_test".to_string() });
    let query = table_create_query(&tables, &mut queries, table);
    let vq = query_nearest_to(&queries, &mut vector_queries, query, Some(4)).unwrap();

    let with_column = vector_query_column(&mut vector_queries, vq, "vector".to_string());
    assert_ne!(with_column, 0);
    assert_ne!(with_column, vq);
    assert_eq!(
        vector_queries.borrow(with_column).column.as_ref().unwrap(),
        "vector"
    );
    assert!(vector_queries.borrow(vq).column.is_none());

    vector_query_free(&mut vector_queries, with_column);
    vector_query_free(&mut vector_queries, vq);
    query_free(&mut queries, query);
    table_close(&mut tables, table);
}
