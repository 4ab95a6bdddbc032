//! Tests for the table-side request decoding, the answer texts, and the
//! statistics structs.

use lancedb_ffi::error::FfiError;
use lancedb_ffi::exchange::BatchData;
use lancedb_ffi::ffi::{DistanceKind, IndexKind};
use lancedb_ffi::free_string;
use lancedb_ffi::results::{
    table_index_stats_free, table_merge_result_free, table_stats_free, table_update_result_free,
    FfiFragmentSummaryStats, FfiMergeResult, FfiUpdateResult,
};
use lancedb_ffi::table::{
    add_columns_request, alter_columns_request, collect_query_result, create_index_request,
    find_field_id, index_stats_new, list_indices_response_json, list_versions_response_json,
    merge_insert_request, optimize_request, optimize_response_json, parse_add_mode,
    parse_name_list, replace_field_metadata_request, require_native, table_stats_new,
    tags_response_json, take_request, update_request, wait_timeout_millis, AddMode,
    CompactionStats, IndexInfo, PruneStats, VersionInfo,
};
use lancedb_ffi::free_ffi_bytes;

#[test]
fn table_tests_test_free_string_null_is_safe() {
    free_string(None);
}

#[test]
fn ffi_tests_test_free_string_null_is_safe() {
    free_string(None);
}

#[test]
fn test_free_ffi_bytes_null_is_safe() {
    free_ffi_bytes(None);
}

#[test]
fn test_free_result_structs_null_is_safe() {
    table_update_result_free(None);
    table_merge_result_free(None);
    table_index_stats_free(None);
    table_stats_free(None);
}

#[test]
fn test_free_result_structs_once_is_safe() {
    table_update_result_free(Some(FfiUpdateResult { rows_updated: 3, version: 2 }));
    table_merge_result_free(Some(FfiMergeResult {
        version: 2,
        num_inserted_rows: 1,
        num_updated_rows: 1,
        num_deleted_rows: 0,
        num_attempts: 1,
    }));
}

#[test]
fn test_add_data_request_append_mode() {
    let mut arrays = Some(vec![lancedb_ffi::exchange::ArrayDescriptor {
        length: 4,
        null_count: 0,
        offset: 0,
        n_buffers: 1,
        n_children: 1,
        has_release: true,
    }]);
    let mut schema = Some(lancedb_ffi::exchange::SchemaDescriptor {
        field_names: vec!["id".to_string()],
        has_release: true,
    });
    let plan =
        lancedb_ffi::table::add_request(&mut arrays, &mut schema, None).unwrap();
    assert_eq!(plan.mode, AddMode::Append);
    assert_eq!(plan.batches.len(), 1);
    assert_eq!(plan.batches[0].num_rows, 4);

    let mut no_arrays = None;
    let mut no_schema = None;
    assert!(lancedb_ffi::table::add_request(&mut no_arrays, &mut no_schema, None).is_err());
}

#[test]
fn test_export_schema_is_live() {
    let d = lancedb_ffi::exchange::export_schema(vec!["a".to_string(), "b".to_string()]);
    assert!(d.has_release);
    assert_eq!(d.field_names.len(), 2);
    lancedb_ffi::free_ffi_schema(Some(d));
}

#[test]
fn test_parse_add_mode() {
    assert_eq!(parse_add_mode(None), AddMode::Append);
    assert_eq!(parse_add_mode(Some("overwrite".to_string())), AddMode::Overwrite);
    assert_eq!(parse_add_mode(Some("append".to_string())), AddMode::Append);
    assert_eq!(parse_add_mode(Some("sideways".to_string())), AddMode::Append);
}

#[test]
fn test_update_request_decodes_pairs() {
    let plan = update_request(
        Some("id > 0".to_string()),
        r#"[["name","'updated'"],["score","score + 1"]]"#.to_string(),
    )
    .unwrap();
    assert_eq!(plan.filter.unwrap(), "id > 0");
    assert_eq!(plan.assignments.len(), 2);
    assert_eq!(plan.assignments[0].0, "name");
    assert_eq!(plan.assignments[0].1, "'updated'");
    assert_eq!(plan.assignments[1].0, "score");
    assert_eq!(plan.assignments[1].1, "score + 1");
}

#[test]
fn test_update_request_invalid_json_is_error() {
    let r = update_request(None, "not valid json".to_string());
    assert!(matches!(r, Err(FfiError::InvalidJson(_))));
}

#[test]
fn test_add_columns_request_decodes_pairs() {
    let pairs = add_columns_request(r#"[["doubled","id * 2"]]"#.to_string()).unwrap();
    assert_eq!(pairs.len(), 1);
    assert_eq!(pairs[0].0, "doubled");
    assert_eq!(pairs[0].1, "id * 2");
}

#[test]
fn test_alter_columns_request_decodes_objects() {
    let plans = alter_columns_request(
        r#"[{"path":"old_name","rename":"new_name"},{"path":"x","nullable":true}]"#.to_string(),
    )
    .unwrap();
    assert_eq!(plans.len(), 2);
    assert_eq!(plans[0].path, "old_name");
    assert_eq!(plans[0].rename.as_ref().unwrap(), "new_name");
    assert!(plans[0].nullable.is_none());
    assert_eq!(plans[1].path, "x");
    assert!(plans[1].rename.is_none());
    assert_eq!(plans[1].nullable, Some(true));
}

#[test]
fn test_parse_name_list() {
    let names = parse_name_list(r#"["keep","remove"]"#.to_string()).unwrap();
    assert_eq!(names, vec!["keep", "remove"]);
    assert!(parse_name_list("{{{bad}}}".to_string()).is_err());
}

#[test]
fn test_wait_timeout_default_is_five_minutes() {
    assert_eq!(wait_timeout_millis(2500), 2500);
    assert_eq!(wait_timeout_millis(0), 300000);
    assert_eq!(wait_timeout_millis(-7), 300000);
}

#[test]
fn test_take_request_selects_each_column_under_itself() {
    let plan = take_request(Some(r#"["id"]"#.to_string()), true).unwrap();
    let cols = plan.columns.unwrap();
    assert_eq!(cols.len(), 1);
    assert_eq!(cols[0].0, "id");
    assert_eq!(cols[0].1, "id");
    assert!(plan.with_row_id);

    let all = take_request(None, false).unwrap();
    assert!(all.columns.is_none());
    assert!(!all.with_row_id);
}

#[test]
fn test_collect_query_result_shapes() {
    let fields = vec!["id".to_string()];

    let empty = collect_query_result(Vec::new(), fields.clone()).unwrap();
    assert_eq!(empty.array.length, 0);
    assert!(empty.array.has_release);
    assert_eq!(empty.schema.field_names, fields);

    let single = collect_query_result(
        vec![BatchData { num_rows: 5, field_names: fields.clone() }],
        fields.clone(),
    )
    .unwrap();
    assert_eq!(single.array.length, 5);

    let several = collect_query_result(
        vec![
            BatchData { num_rows: 2, field_names: fields.clone() },
            BatchData { num_rows: 3, field_names: fields.clone() },
        ],
        fields.clone(),
    )
    .unwrap();
    assert_eq!(several.array.length, 5);

    let overflowing = collect_query_result(
        vec![
            BatchData { num_rows: u64::MAX, field_names: fields.clone() },
            BatchData { num_rows: 1, field_names: fields.clone() },
        ],
        fields,
    );
    assert!(matches!(overflowing, Err(FfiError::Exchange(_))));
}

#[test]
fn test_require_native_gates_remote_tables() {
    assert!(require_native(true, "uses_v2_manifest_paths").is_ok());
    match require_native(false, "uses_v2_manifest_paths") {
        Err(FfiError::NotSupported(m)) => {
            assert_eq!(m, "uses_v2_manifest_paths is only supported for local tables")
        }
        other => panic!("expected a not-supported error, got {:?}", other),
    }
}

#[test]
fn test_replace_field_metadata_request() {
    let fields = vec![("id".to_string(), 0u32), ("name".to_string(), 4u32)];

    let (field_id, metadata) = replace_field_metadata_request(
        "name".to_string(),
        Some(r#"{"owner":"tests"}"#.to_string()),
        &fields,
    )
    .unwrap();
    assert_eq!(field_id, 4);
    assert_eq!(metadata.get("owner").unwrap(), "tests");

    // a null metadata object is rejected before dispatch
    assert!(matches!(
        replace_field_metadata_request("name".to_string(), None, &fields),
        Err(FfiError::InvalidInput(_))
    ));
    // so is a field the schema does not have
    assert!(matches!(
        replace_field_metadata_request(
            "missing".to_string(),
            Some("{}".to_string()),
            &fields
        ),
        Err(FfiError::InvalidInput(_))
    ));
}

#[test]
fn test_find_field_id_first_match_wins() {
    let fields = vec![
        ("id".to_string(), 0u32),
        ("vector".to_string(), 1u32),
        ("id".to_string(), 7u32),
    ];
    assert_eq!(find_field_id(&fields, "id"), Some(0));
    assert_eq!(find_field_id(&fields, "vector"), Some(1));
    assert_eq!(find_field_id(&fields, "missing"), None);
}

#[test]
fn test_merge_insert_request_decodes() {
    let plan = merge_insert_request(
        r#"["id"]"#.to_string(),
        true,
        None,
        true,
        false,
        None,
        true,
        -1,
    )
    .unwrap();
    assert_eq!(plan.on_columns, vec!["id"]);
    assert!(plan.when_matched_update_all);
    assert!(plan.when_not_matched_insert_all);
    assert!(!plan.when_not_matched_by_source_delete);
    assert!(plan.timeout_ms.is_none());

    let timed = merge_insert_request(
        r#"["id"]"#.to_string(),
        false,
        None,
        true,
        false,
        None,
        false,
        30000,
    )
    .unwrap();
    assert_eq!(timed.timeout_ms, Some(30000));

    assert!(merge_insert_request("{}".to_string(), false, None, false, false, None, false, 0)
        .is_err());
}

#[test]
fn test_create_index_request_btree_with_name() {
    let plan = create_index_request(
        Some(r#"["id"]"#.to_string()),
        6,
        None,
        true,
        Some("my_named_idx".to_string()),
        true,
        -1,
    )
    .unwrap();
    assert_eq!(plan.columns, vec!["id"]);
    assert!(plan.replace);
    assert!(plan.train);
    assert_eq!(plan.name.unwrap(), "my_named_idx");
    assert!(plan.wait_timeout_ms.is_none());
    assert!(matches!(plan.index, lancedb_ffi::index_config::IndexSpec::BTree));
}

#[test]
fn test_create_index_request_null_columns_is_error() {
    let r = create_index_request(None, 6, None, false, None, true, -1);
    assert!(matches!(r, Err(FfiError::NullArgument(_))));
}

#[test]
fn test_create_index_request_ivf_pq_reads_config() {
    let plan = create_index_request(
        Some(r#"["vector"]"#.to_string()),
        2,
        Some(r#"{"distance_type":1,"num_partitions":100,"num_sub_vectors":16}"#.to_string()),
        false,
        None,
        true,
        -1,
    )
    .unwrap();
    match plan.index {
        lancedb_ffi::index_config::IndexSpec::IvfPq(p) => {
            assert_eq!(p.distance, Some(DistanceKind::Cosine));
            assert_eq!(p.num_partitions, Some(100));
            assert_eq!(p.num_sub_vectors, Some(16));
            assert!(p.num_bits.is_none());
            assert!(p.num_edges.is_none());
        }
        other => panic!("wrong index spec: {:?}", other),
    }
}

#[test]
fn test_create_index_request_invalid_distance_is_error() {
    let r = create_index_request(
        Some(r#"["vector"]"#.to_string()),
        0,
        Some(r#"{"distance_type":9}"#.to_string()),
        false,
        None,
        true,
        -1,
    );
    assert!(matches!(r, Err(FfiError::InvalidInput(_))));
}

#[test]
fn test_create_index_request_distance_out_of_range_is_rejected() {
    // a code that would alias a metric after 32-bit narrowing is still
    // rejected as it stands
    let r = create_index_request(
        Some(r#"["vector"]"#.to_string()),
        0,
        Some(r#"{"distance_type":4294967296}"#.to_string()),
        false,
        None,
        true,
        -1,
    );
    assert!(matches!(r, Err(FfiError::InvalidInput(_))));
}

#[test]
fn test_create_index_request_owes_success() {
    // valid inputs decode to a plan: success is owed, not optional
    let plan = create_index_request(
        Some(r#"["id"]"#.to_string()),
        6,
        Some("{}".to_string()),
        true,
        None,
        true,
        -1,
    )
    .unwrap();
    assert!(matches!(plan.index, lancedb_ffi::index_config::IndexSpec::BTree));

    let bad_config = create_index_request(
        Some(r#"["id"]"#.to_string()),
        6,
        Some("{{{bad}}}".to_string()),
        true,
        None,
        true,
        -1,
    );
    assert!(matches!(bad_config, Err(FfiError::InvalidJson(_))));

    let bad_type = create_index_request(
        Some(r#"["id"]"#.to_string()),
        42,
        None,
        true,
        None,
        true,
        -1,
    );
    assert!(matches!(bad_type, Err(FfiError::InvalidInput(_))));
}

#[test]
fn test_replace_field_metadata_not_found_message() {
    let fields = vec![("id".to_string(), 0u32)];
    match replace_field_metadata_request("missing".to_string(), Some("{}".to_string()), &fields) {
        Err(FfiError::InvalidInput(m)) => {
            assert_eq!(m, "Field 'missing' not found in schema")
        }
        other => panic!("expected an invalid-input error, got {:?}", other),
    }
    match replace_field_metadata_request("id".to_string(), None, &fields) {
        Err(FfiError::InvalidInput(m)) => {
            assert_eq!(m, "metadata_json must be a valid JSON object")
        }
        other => panic!("expected an invalid-input error, got {:?}", other),
    }
}

#[test]
fn test_add_request_zeroes_sources() {
    let mut arrays = Some(vec![lancedb_ffi::exchange::ArrayDescriptor {
        length: 2,
        null_count: 0,
        offset: 0,
        n_buffers: 1,
        n_children: 1,
        has_release: true,
    }]);
    let mut schema = Some(lancedb_ffi::exchange::SchemaDescriptor {
        field_names: vec!["id".to_string()],
        has_release: true,
    });
    lancedb_ffi::table::add_request(&mut arrays, &mut schema, None).unwrap();
    let cleared = arrays.unwrap();
    assert_eq!(cleared.len(), 1);
    assert_eq!(cleared[0].length, 0);
    assert!(!cleared[0].has_release);
    assert!(!schema.unwrap().has_release);
}

#[test]
fn test_create_index_request_fts_config() {
    let plan = create_index_request(
        Some(r#"["text"]"#.to_string()),
        9,
        Some(r#"{"with_position":true,"base_tokenizer":"simple","lower_case":false}"#.to_string()),
        false,
        None,
        true,
        -1,
    )
    .unwrap();
    match plan.index {
        lancedb_ffi::index_config::IndexSpec::Fts(p) => {
            assert_eq!(p.with_position, Some(true));
            assert_eq!(p.base_tokenizer.unwrap(), "simple");
            assert_eq!(p.lower_case, Some(false));
            assert!(p.stem.is_none());
            assert!(p.language.is_none());
        }
        other => panic!("wrong index spec: {:?}", other),
    }
}

#[test]
fn test_optimize_request_prune_age() {
    let keep_default = optimize_request(-1, false);
    assert!(keep_default.older_than_ms.is_none());
    let prune = optimize_request(86400000, true);
    assert_eq!(prune.older_than_ms, Some(86400000));
    assert!(prune.delete_unverified);
}

#[test]
fn test_optimize_response_json_exact() {
    let text = optimize_response_json(
        Some(CompactionStats {
            fragments_removed: 2,
            fragments_added: 1,
            files_removed: 2,
            files_added: 1,
        }),
        Some(PruneStats { bytes_removed: 0, old_versions: 0 }),
    );
    assert_eq!(
        text,
        "{\"compaction\":{\"fragments_removed\":2,\"fragments_added\":1,\"files_removed\":2,\"files_added\":1},\"prune\":{\"bytes_removed\":0,\"old_versions\":0}}"
    );

    let nothing = optimize_response_json(None, None);
    assert_eq!(nothing, "{\"compaction\":null,\"prune\":null}");
}

#[test]
fn test_list_versions_response_json_exact() {
    let versions = vec![
        VersionInfo {
            version: 1,
            timestamp: "2024-01-01T00:00:00+00:00".to_string(),
            metadata: Vec::new(),
        },
        VersionInfo {
            version: 2,
            timestamp: "2024-01-02T00:00:00+00:00".to_string(),
            metadata: vec![("author".to_string(), "tests".to_string())],
        },
    ];
    let text = list_versions_response_json(&versions);
    assert_eq!(
        text,
        "[{\"version\":1,\"timestamp\":\"2024-01-01T00:00:00+00:00\",\"metadata\":{}},{\"version\":2,\"timestamp\":\"2024-01-02T00:00:00+00:00\",\"metadata\":{\"author\":\"tests\"}}]"
    );
}

#[test]
fn test_tags_response_json_exact() {
    let tags = vec![("stable".to_string(), 3u64, 512u64)];
    assert_eq!(
        tags_response_json(&tags),
        "{\"stable\":{\"version\":3,\"manifest_size\":512}}"
    );
    assert_eq!(tags_response_json(&Vec::new()), "{}");
}

#[test]
fn test_tags_response_json_escapes_quotes() {
    let tags = vec![("a\"b\\c".to_string(), 1u64, 2u64)];
    assert_eq!(
        tags_response_json(&tags),
        "{\"a\\\"b\\\\c\":{\"version\":1,\"manifest_size\":2}}"
    );
}

#[test]
fn test_list_indices_response_json_exact() {
    let indices = vec![IndexInfo {
        name: "id_idx".to_string(),
        kind: IndexKind::BTree,
        columns: vec!["id".to_string()],
    }];
    assert_eq!(
        list_indices_response_json(&indices),
        "[{\"name\":\"id_idx\",\"index_type\":6,\"columns\":[\"id\"]}]"
    );
}

#[test]
fn test_index_stats_new_codes() {
    let stats = index_stats_new(100, 0, IndexKind::BTree, None, None);
    assert_eq!(stats.num_indexed_rows, 100);
    assert_eq!(stats.index_type, 6);
    assert_eq!(stats.distance_type, -1);
    assert_eq!(stats.num_indices, 0);

    let vector = index_stats_new(7, 3, IndexKind::IvfPq, Some(DistanceKind::L2), Some(2));
    assert_eq!(vector.index_type, 2);
    assert_eq!(vector.distance_type, 0);
    assert_eq!(vector.num_indices, 2);
}

#[test]
fn test_table_stats_new_carries_fields() {
    let lengths = FfiFragmentSummaryStats { min: 1, max: 9, mean: 5, p25: 2, p50: 5, p75: 8, p99: 9 };
    let stats = table_stats_new(4096, 100, 2, 3, 1, lengths);
    assert_eq!(stats.total_bytes, 4096);
    assert_eq!(stats.num_rows, 100);
    assert_eq!(stats.num_indices, 2);
    assert_eq!(stats.fragment_stats.num_fragments, 3);
    assert_eq!(stats.fragment_stats.num_small_fragments, 1);
    assert_eq!(stats.fragment_stats.lengths.p75, 8);
}
