//! Tests for the error texts and the number rendering of the answers.

use lancedb_ffi::error::FfiError;
use lancedb_ffi::json_text::push_u64;

#[test]
fn test_error_messages_by_variant() {
    assert_eq!(
        FfiError::NullArgument("uri".to_string()).message(),
        "required argument is null: uri"
    );
    assert_eq!(
        FfiError::InvalidJson("expected value".to_string()).message(),
        "invalid JSON: expected value"
    );
    assert_eq!(FfiError::InvalidInput("bad mode".to_string()).message(), "bad mode");
    assert_eq!(FfiError::Exchange("released".to_string()).message(), "released");
    assert_eq!(FfiError::NotSupported("local only".to_string()).message(), "local only");
    assert_eq!(FfiError::Delegated("engine says no".to_string()).message(), "engine says no");
}

#[test]
fn test_json_escaping_of_control_characters() {
    let tags = vec![("line\none\ttab\u{1}raw".to_string(), 1u64, 2u64)];
    assert_eq!(
        lancedb_ffi::table::tags_response_json(&tags),
        "{\"line\\none\\ttab\\u0001raw\":{\"version\":1,\"manifest_size\":2}}"
    );
}

#[test]
fn test_decimal_rendering() {
    let mut out = String::new();
    push_u64(&mut out, 0);
    assert_eq!(out, "0");
    let mut out = String::new();
    push_u64(&mut out, 10);
    assert_eq!(out, "10");
    let mut out = String::new();
    push_u64(&mut out, 90210);
    assert_eq!(out, "90210");
    let mut out = String::new();
    push_u64(&mut out, u64::MAX);
    assert_eq!(out, "18446744073709551615");
}
