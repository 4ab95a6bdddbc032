//! Tests for the connection-side request decoding and answers.

use lancedb_ffi::connection::{
    connect_request, create_empty_table_request, create_table_request, database_close,
    drop_table_request, list_tables_request, list_tables_response_json, open_table_request,
    parse_create_mode, session_config, table_names_request, ConnectionState, CreateMode,
    DEFAULT_INDEX_CACHE_BYTES, DEFAULT_METADATA_CACHE_BYTES,
};
use lancedb_ffi::error::FfiError;
use lancedb_ffi::exchange::{ArrayDescriptor, SchemaDescriptor};
use lancedb_ffi::handle::HandleTable;
use lancedb_ffi::json_text::join_lines;

#[test]
fn test_connection_close_null_is_safe() {
    let mut connections: HandleTable<ConnectionState> = HandleTable::new();
    database_close(&mut connections, 0);
}

#[test]
fn test_connection_create_and_close() {
    let mut connections: HandleTable<ConnectionState> = HandleTable::new();
    let h = connections.create(ConnectionState { uri: "memory://".to_string() });
    assert_ne!(h, 0);
    assert_eq!(connections.borrow(h).uri, "memory://");
    database_close(&mut connections, h);
}

#[test]
fn test_connect_request_null_uri_is_error() {
    let r = connect_request(None, None, -1, -1);
    assert!(matches!(r, Err(FfiError::NullArgument(_))));
}

#[test]
fn test_connection_connect_with_session_both_cache_sizes() {
    let session = session_config(512, 1024).unwrap();
    assert_eq!(session.index_cache_bytes, 512);
    assert_eq!(session.metadata_cache_bytes, 1024);
    let partial = session_config(128, -1).unwrap();
    assert_eq!(partial.index_cache_bytes, 128);
    assert_eq!(partial.metadata_cache_bytes, DEFAULT_METADATA_CACHE_BYTES);
}

#[test]
fn test_connection_connect_with_session_default_sizes() {
    let session = session_config(0, 0).unwrap();
    assert_eq!(session.index_cache_bytes, DEFAULT_INDEX_CACHE_BYTES);
    assert_eq!(session.metadata_cache_bytes, DEFAULT_METADATA_CACHE_BYTES);
    assert_eq!(DEFAULT_METADATA_CACHE_BYTES, 1024 * 1024 * 1024);
}

#[test]
fn test_connection_connect_without_session() {
    assert!(session_config(-1, -1).is_none());
    let plan = connect_request(Some("memory://".to_string()), None, -1, -1).unwrap();
    assert!(plan.session.is_none());
    assert_eq!(plan.uri, "memory://");
}

#[test]
fn test_open_table_request_null_name_is_error() {
    let r = open_table_request(None, None, 0, None, None);
    assert!(matches!(r, Err(FfiError::NullArgument(_))));
}

#[test]
fn test_open_table_request_decodes() {
    let plan = open_table_request(
        Some("session_test".to_string()),
        Some(r#"{"region":"us-east-1"}"#.to_string()),
        128,
        None,
        Some(r#"["team","project"]"#.to_string()),
    )
    .unwrap();
    assert_eq!(plan.table_name, "session_test");
    assert_eq!(plan.index_cache_size, Some(128));
    assert_eq!(plan.storage_options.unwrap().get("region").unwrap(), "us-east-1");
    assert_eq!(plan.namespace.unwrap(), vec!["team", "project"]);
}

#[test]
fn test_parse_create_mode_exist_ok_wins() {
    assert_eq!(parse_create_mode(true, Some("overwrite".to_string())), CreateMode::ExistOk);
    assert_eq!(parse_create_mode(false, Some("overwrite".to_string())), CreateMode::Overwrite);
    assert_eq!(parse_create_mode(false, Some("create".to_string())), CreateMode::Create);
    assert_eq!(parse_create_mode(false, None), CreateMode::Create);
}

#[test]
fn test_create_empty_table_with_custom_schema() {
    let mut schema = Some(SchemaDescriptor {
        field_names: vec!["name".to_string(), "score".to_string()],
        has_release: true,
    });
    let plan = create_empty_table_request(
        Some("custom_schema".to_string()),
        &mut schema,
        None,
        None,
        None,
        None,
        false,
    )
    .unwrap();
    assert_eq!(plan.table_name, "custom_schema");
    assert_eq!(plan.schema_fields.len(), 2);
    assert_eq!(plan.schema_fields[0], "name");
    assert_eq!(plan.schema_fields[1], "score");
    // the caller's schema memory was zeroed by the import
    assert!(!schema.unwrap().has_release);
}

#[test]
fn test_create_empty_table_null_schema_uses_placeholder() {
    let mut schema = None;
    let plan = create_empty_table_request(
        Some("empty".to_string()),
        &mut schema,
        None,
        None,
        None,
        None,
        true,
    )
    .unwrap();
    assert_eq!(plan.schema_fields.len(), 0);
    assert_eq!(plan.mode, CreateMode::ExistOk);
}

#[test]
fn test_create_table_with_data() {
    let mut arrays = Some(vec![ArrayDescriptor {
        length: 3,
        null_count: 0,
        offset: 0,
        n_buffers: 1,
        n_children: 1,
        has_release: true,
    }]);
    let mut schema = Some(SchemaDescriptor {
        field_names: vec!["id".to_string()],
        has_release: true,
    });
    let plan = create_table_request(
        Some("my_table".to_string()),
        &mut arrays,
        &mut schema,
        None,
        None,
        None,
        None,
        false,
    )
    .unwrap();
    assert_eq!(plan.table_name, "my_table");
    assert_eq!(plan.batches.len(), 1);
    assert_eq!(plan.batches[0].num_rows, 3);
    assert_eq!(plan.schema_fields, vec!["id"]);
}

#[test]
fn test_create_table_null_schema_is_error_and_sources_untouched() {
    let live = ArrayDescriptor {
        length: 3,
        null_count: 0,
        offset: 0,
        n_buffers: 1,
        n_children: 1,
        has_release: true,
    };
    let mut arrays = Some(vec![live.clone()]);
    let mut schema = None;
    let r = create_table_request(
        Some("t".to_string()),
        &mut arrays,
        &mut schema,
        None,
        None,
        None,
        None,
        false,
    );
    assert!(matches!(r, Err(FfiError::NullArgument(_))));
    // no partial import: the caller's descriptors are untouched
    assert_eq!(arrays.unwrap()[0], live);
}

#[test]
fn test_create_table_zero_batch_count_is_error() {
    let mut arrays = Some(Vec::new());
    let mut schema = Some(SchemaDescriptor {
        field_names: vec!["id".to_string()],
        has_release: true,
    });
    let r = create_table_request(
        Some("t".to_string()),
        &mut arrays,
        &mut schema,
        None,
        None,
        None,
        None,
        false,
    );
    assert!(matches!(r, Err(FfiError::InvalidInput(_))));
    assert!(schema.unwrap().has_release);
}

#[test]
fn test_drop_table_null_name_is_error_before_dispatch() {
    // a null required pointer is reported synchronously, before any
    // task is dispatched
    let r = drop_table_request(None);
    match r {
        Err(FfiError::NullArgument(n)) => assert_eq!(n, "table_name"),
        other => panic!("expected a null-argument error, got {:?}", other),
    }
    assert_eq!(drop_table_request(Some("to_drop".to_string())).unwrap(), "to_drop");
}

#[test]
fn test_table_names_request_zero_limit_means_none() {
    let plan = table_names_request(Some("alpha".to_string()), 0, None);
    assert_eq!(plan.start_after.unwrap(), "alpha");
    assert!(plan.limit.is_none());
    let limited = table_names_request(None, 10, None);
    assert_eq!(limited.limit, Some(10));
}

#[test]
fn test_table_names_answer_joins_with_newlines() {
    let names = vec!["alpha".to_string(), "zebra".to_string()];
    assert_eq!(join_lines(&names), "alpha\nzebra");
    assert_eq!(join_lines(&Vec::new()), "");
}

#[test]
fn test_list_tables_request_and_response() {
    let plan = list_tables_request(Some("tok".to_string()), 5, None);
    assert_eq!(plan.page_token.unwrap(), "tok");
    assert_eq!(plan.limit, Some(5));

    let text = list_tables_response_json(
        &vec!["alpha".to_string(), "zebra".to_string()],
        &Some("next".to_string()),
    );
    assert_eq!(text, "{\"tables\":[\"alpha\",\"zebra\"],\"page_token\":\"next\"}");
    let done = list_tables_response_json(&Vec::new(), &None);
    assert_eq!(done, "{\"tables\":[],\"page_token\":null}");
}
