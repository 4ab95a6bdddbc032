//! Tests for the columnar exchange protocol: import, export, the
//! round trip, the zeroing discipline, and the pull cursor.

use lancedb_ffi::exchange::{
    export_batch, free_ffi_bytes as free_bytes_direct, import_batches, import_record_batch,
    import_schema, ArrayDescriptor, BatchData, BatchStream, FfiBytes, SchemaDescriptor,
    StreamPull,
};
use lancedb_ffi::free_ffi_cdata;

fn names(items: &[&str]) -> Vec<String> {
    items.iter().map(|s| s.to_string()).collect()
}

fn live_array(rows: u64, children: u64) -> ArrayDescriptor {
    ArrayDescriptor {
        length: rows,
        null_count: 0,
        offset: 0,
        n_buffers: 1,
        n_children: children,
        has_release: true,
    }
}

fn live_schema(fields: &[&str]) -> SchemaDescriptor {
    SchemaDescriptor { field_names: names(fields), has_release: true }
}

#[test]
fn test_import_record_batch_valid() {
    let mut array = Some(live_array(3, 1));
    let mut schema = Some(live_schema(&["id"]));

    let result = import_record_batch(&mut array, &mut schema).unwrap();
    assert_eq!(result.num_rows, 3);
    assert_eq!(result.field_names.len(), 1);
    assert_eq!(result.field_names[0], "id");
}

#[test]
fn test_import_schema_valid() {
    let mut schema = Some(live_schema(&["name", "age"]));

    let result = import_schema(&mut schema).unwrap();
    assert_eq!(result.len(), 2);
    assert_eq!(result[0], "name");
    assert_eq!(result[1], "age");
}

#[test]
fn test_import_batches_valid() {
    let mut arrays = Some(vec![live_array(2, 1), live_array(3, 1)]);
    let mut schema = Some(live_schema(&["id"]));

    let (batches, schema_fields) = import_batches(&mut arrays, &mut schema).unwrap();
    assert_eq!(batches.len(), 2);
    assert_eq!(batches[0].num_rows, 2);
    assert_eq!(batches[1].num_rows, 3);
    assert_eq!(schema_fields.len(), 1);
    assert_eq!(schema_fields[0], "id");
}

#[test]
fn test_import_zeroes_source_and_release_is_noop() {
    let mut array = Some(live_array(5, 2));
    let mut schema = Some(live_schema(&["a", "b"]));

    import_record_batch(&mut array, &mut schema).unwrap();

    // the caller's memory is all zero afterwards
    let mut zeroed_array = array.unwrap();
    assert_eq!(zeroed_array.length, 0);
    assert_eq!(zeroed_array.null_count, 0);
    assert_eq!(zeroed_array.offset, 0);
    assert_eq!(zeroed_array.n_buffers, 0);
    assert_eq!(zeroed_array.n_children, 0);
    assert!(!zeroed_array.has_release);
    let mut zeroed_schema = schema.unwrap();
    assert_eq!(zeroed_schema.field_names.len(), 0);
    assert!(!zeroed_schema.has_release);

    // invoking the original owner's release callback is a safe no-op
    let before = zeroed_array.clone();
    zeroed_array.invoke_release();
    assert_eq!(zeroed_array, before);
    let schema_before = zeroed_schema.clone();
    zeroed_schema.invoke_release();
    assert_eq!(zeroed_schema, schema_before);
}

#[test]
fn test_import_released_descriptor_is_error() {
    let mut released = live_array(4, 1);
    released.has_release = false;
    let mut array = Some(released);
    let mut schema = Some(live_schema(&["id"]));
    assert!(import_record_batch(&mut array, &mut schema).is_err());
}

#[test]
fn test_import_batches_zero_count_is_error() {
    let mut arrays = Some(Vec::new());
    let mut schema = Some(live_schema(&["id"]));
    assert!(import_batches(&mut arrays, &mut schema).is_err());
}

#[test]
fn test_export_import_round_trip() {
    let batch = BatchData { num_rows: 7, field_names: names(&["id", "vector", "_distance"]) };
    let pair = export_batch(batch);

    let mut array = Some(pair.array);
    let mut schema = Some(pair.schema);
    let back = import_record_batch(&mut array, &mut schema).unwrap();

    assert_eq!(back.num_rows, 7);
    assert_eq!(back.field_names.len(), 3);
    assert_eq!(back.field_names[0], "id");
    assert_eq!(back.field_names[1], "vector");
    assert_eq!(back.field_names[2], "_distance");
}

#[test]
fn test_stream_three_batches_then_end() {
    let batches = vec![
        BatchData { num_rows: 10, field_names: names(&["id"]) },
        BatchData { num_rows: 10, field_names: names(&["id"]) },
        BatchData { num_rows: 10, field_names: names(&["id"]) },
    ];
    let mut stream = BatchStream::new(batches);

    for _ in 0..3 {
        assert!(stream.begin_pull());
        match stream.finish_pull() {
            StreamPull::Item(b) => assert_eq!(b.num_rows, 10),
            StreamPull::End => panic!("stream ended early"),
        }
    }

    // the fourth pull reports end of stream: the null-with-no-error pair
    assert!(stream.begin_pull());
    // a concurrent fifth pull, issued before the fourth released the
    // lock, observably waits instead of touching the cursor
    assert!(!stream.begin_pull());
    assert!(matches!(stream.finish_pull(), StreamPull::End));

    // once the lock is free the waiter proceeds and sees the end too
    assert!(stream.begin_pull());
    assert!(matches!(stream.finish_pull(), StreamPull::End));
}

#[test]
fn test_free_ffi_cdata_null_is_safe() {
    free_ffi_cdata(None);
}

#[test]
fn test_free_ffi_cdata_after_export() {
    let pair = export_batch(BatchData { num_rows: 1, field_names: names(&["id"]) });
    free_ffi_cdata(Some(pair));
}

#[test]
fn test_free_ffi_bytes_owned_buffer() {
    free_bytes_direct(Some(FfiBytes { bytes: vec![1, 2, 3] }));
}
