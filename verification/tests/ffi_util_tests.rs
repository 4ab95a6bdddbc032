//! Tests for the low-level boundary utilities: text conversion, JSON
//! parameter decoding, descriptor import, and the last-error slot.

use lancedb_ffi::error::ErrorSlot;
use lancedb_ffi::exchange::{import_batches, import_record_batch, import_schema};
use lancedb_ffi::ffi::{
    parse_optional_json_list, parse_optional_json_map, parse_optional_string, to_string,
};
use lancedb_ffi::free_string;

#[test]
fn test_to_string_returns_owned_string() {
    let text = Some("hello world".to_string());
    let result = to_string(text.clone());
    assert_eq!(result, "hello world");
    // the source value is untouched — to_string does not take ownership
    assert_eq!(text.unwrap(), "hello world");
}

#[test]
fn test_to_string_utf8() {
    let result = to_string(Some("你好世界".to_string()));
    assert_eq!(result, "你好世界");
}

#[test]
fn test_to_string_null_returns_empty() {
    assert_eq!(to_string(None), "");
}

#[test]
fn test_parse_optional_json_map_null_returns_none() {
    assert!(parse_optional_json_map(None).is_none());
}

#[test]
fn test_parse_optional_json_map_valid_json() {
    let json = r#"{"key1":"val1","key2":"val2"}"#.to_string();
    let result = parse_optional_json_map(Some(json)).unwrap();
    assert_eq!(result.len(), 2);
    assert_eq!(result.get("key1").unwrap(), "val1");
    assert_eq!(result.get("key2").unwrap(), "val2");
}

#[test]
fn test_parse_optional_json_map_empty_object() {
    let result = parse_optional_json_map(Some("{}".to_string())).unwrap();
    assert!(result.is_empty());
}

#[test]
fn test_parse_optional_json_list_null_returns_none() {
    assert!(parse_optional_json_list(None).is_none());
}

#[test]
fn test_parse_optional_json_list_valid_json() {
    let json = r#"["team","project"]"#.to_string();
    let result = parse_optional_json_list(Some(json)).unwrap();
    assert_eq!(result, vec!["team", "project"]);
}

#[test]
fn test_parse_optional_json_list_empty_array() {
    let result = parse_optional_json_list(Some("[]".to_string())).unwrap();
    assert!(result.is_empty());
}

#[test]
fn test_parse_optional_string_null_returns_none() {
    assert!(parse_optional_string(None).is_none());
}

#[test]
fn test_parse_optional_string_valid() {
    let result = parse_optional_string(Some("s3://my-bucket/tables/foo".to_string())).unwrap();
    assert_eq!(result, "s3://my-bucket/tables/foo");
}

#[test]
fn test_import_record_batch_null_is_error() {
    let mut array = None;
    let mut schema = None;
    let result = import_record_batch(&mut array, &mut schema);
    assert!(result.is_err());
}

#[test]
fn test_import_schema_null_is_error() {
    let mut schema = None;
    let result = import_schema(&mut schema);
    assert!(result.is_err());
}

#[test]
fn test_set_last_error_and_get_returns_message() {
    let mut slot = ErrorSlot::new();
    slot.set_last_error("something went wrong".to_string());
    let err = slot.take_last_error();
    assert!(err.is_some());
    let err_str = err.unwrap();
    assert_eq!(err_str, "something went wrong");
    free_string(Some(err_str));
}

#[test]
fn test_get_last_error_returns_null_when_no_error() {
    let mut slot = ErrorSlot::new();
    // Clear any prior error
    let _ = slot.take_last_error();
    let err = slot.take_last_error();
    assert!(err.is_none());
}

#[test]
fn test_get_last_error_clears_after_read() {
    let mut slot = ErrorSlot::new();
    slot.set_last_error("first error".to_string());
    let err = slot.take_last_error();
    assert!(err.is_some());
    free_string(err);

    let err2 = slot.take_last_error();
    assert!(err2.is_none());
}

#[test]
fn test_import_batches_null_is_error() {
    let mut arrays = None;
    let mut schema = None;
    let result = import_batches(&mut arrays, &mut schema);
    assert!(result.is_err());
}
