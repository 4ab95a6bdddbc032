//! Table-side boundary logic: the request decoding done before an
//! operation is dispatched, the answer texts built after the engine
//! returns, and the C-compatible statistics structs.
//!
//! Every entry point follows one shape: decode and validate the plain
//! parameters here, synchronously and before any task is dispatched
//! (boundary-input errors are reported immediately); hand the
//! resulting plan to the shell, which runs the delegated engine call on a
//! pool executor; and turn the engine's answer back into boundary values
//! here.

use vstd::prelude::*;
use sonic_rs::JsonValueTrait;
use vstd::assert_seqs_equal;
use crate::error::FfiError;
use crate::exchange::{spec_export_array, BatchData, FfiCData};
use crate::ffi::{
    index_type_to_ffi, distance_type_to_ffi, json_string_list, json_string_pairs,
    parse_required_json_list, parse_required_json_pairs, spec_distance_kind_code,
    spec_index_kind_code, DistanceKind, IndexKind,
};
use crate::handle::{release_step, HandleTable};
use crate::index_config::{
    build_index, parse_config_entries, spec_index_matches, ConfigValue, IndexSpec,
};
use crate::json_text::{
    push_object_of_pairs, push_quoted, push_string_array, push_u64, spec_dec, spec_joined,
    spec_object_of_pairs, spec_pair_views, spec_quoted, spec_string_array, spec_views,
};
use crate::results::{FfiIndexStats, FfiTableStats, FfiFragmentStats, FfiFragmentSummaryStats};

verus! {

/// The boundary's model of an open table: the name it was opened under.
#[derive(Debug, PartialEq, Eq, Clone)]
pub struct TableState {
    pub name: String,
}

/// A table handle is open when it is not null.
pub fn table_is_open(table_handle: usize) -> (r: bool)
    ensures
        r == (table_handle != 0),
{
    table_handle != 0
}

/// Releases a table handle.  Null is a safe no-op; a handle already
/// released is out of contract.
pub fn table_close(tables: &mut HandleTable<TableState>, h: usize)
    requires
        h == 0 || old(tables).is_live(h),
    ensures
        final(tables).cells() == release_step(old(tables).cells(), h),
        h == 0 ==> final(tables).cells() == old(tables).cells(),
{
    tables.release(h);
}

/// Relies on `str::contains` from std: whether the NUL character occurs.
#[verifier::external_body]
fn str_contains_nul(s: &str) -> (r: bool)
    ensures
        r == s@.contains('\u{0}'),
{
    s.contains('\u{0}')
}

/// Returns the name of the table behind a live handle, borrowing the
/// handle.  A name holding an interior NUL cannot cross the boundary as a
/// C string: that failure goes to the last-error slot and the call
/// returns null.
pub fn table_get_name(
    tables: &HandleTable<TableState>,
    h: usize,
    errors: &mut crate::error::ErrorSlot,
) -> (r: Option<String>)
    requires
        tables.is_live(h),
    ensures
        !tables.value_of(h).name@.contains('\u{0}') ==> (r matches Some(name) && name@
            == tables.value_of(h).name@ && final(errors).pending() == old(errors).pending()),
        tables.value_of(h).name@.contains('\u{0}') ==> r is None && final(errors).pending()
            is Some,
{
    let state = tables.borrow(h);
    if str_contains_nul(state.name.as_str()) {
        errors.set_last_error("table name holds an interior NUL byte".to_owned());
        None
    } else {
        Some(state.name.clone())
    }
}

/// How data handed to the table is combined with what is there.
#[derive(Clone, Copy, Debug, PartialEq, Eq, Structural)]
pub enum AddMode {
    Append,
    Overwrite,
}

/// The add mode an optional mode text names: null means append,
/// `"overwrite"` overwrites, and any other text falls back to append.
pub open spec fn spec_add_mode(mode: Option<String>) -> AddMode {
    match mode {
        None => AddMode::Append,
        Some(m) => if m@ == "overwrite"@ {
            AddMode::Overwrite
        } else {
            AddMode::Append
        },
    }
}

/// Decodes the add mode.
pub fn parse_add_mode(mode: Option<String>) -> (r: AddMode)
    ensures
        r == spec_add_mode(mode),
{
    match mode {
        None => AddMode::Append,
        Some(m) => {
            if crate::text::str_eq(m.as_str(), "overwrite") {
                AddMode::Overwrite
            } else {
                AddMode::Append
            }
        }
    }
}

/// A decoded add-data request: the imported batches, their shared field
/// list, and how they combine with the table's rows.
#[derive(Debug, PartialEq, Eq, Clone)]
pub struct AddPlan {
    pub batches: Vec<BatchData>,
    pub schema_fields: Vec<String>,
    pub mode: AddMode,
}

/// Decodes an add-data request: the batch sequence is imported — the
/// caller's descriptors zeroed — before anything is dispatched, and the
/// mode text picks append or overwrite.
pub fn add_request(
    arrays: &mut Option<Vec<crate::exchange::ArrayDescriptor>>,
    schema: &mut Option<crate::exchange::SchemaDescriptor>,
    mode: Option<String>,
) -> (r: Result<AddPlan, FfiError>)
    ensures
        (*old(arrays)) is None || (*old(schema)) is None ==> (r matches Err(
            FfiError::NullArgument(_),
        ) && *final(arrays) == *old(arrays) && *final(schema) == *old(schema)),
        (*old(arrays)) matches Some(av) ==> ((*old(schema)) is Some && av@.len() == 0 ==> (
        r matches Err(FfiError::InvalidInput(_)) && *final(arrays) == *old(arrays)
            && *final(schema) == *old(schema))),
        (*old(arrays)) matches Some(av) ==> ((*old(schema)) matches Some(s) ==> (av@.len() > 0
            ==> (((*final(arrays)) matches Some(fa) && fa@.len() == av@.len() && forall|i: int|
            0 <= i < fa@.len() ==> (#[trigger] fa@[i]) == crate::exchange::spec_cleared_array())
            && ((*final(schema)) matches Some(fs) && fs.is_cleared())))),
        r matches Ok(plan) ==> plan.mode == spec_add_mode(mode),
        (*old(arrays)) matches Some(av) ==> ((*old(schema)) matches Some(s) ==> (av@.len() > 0
            && s.has_release && (forall|i: int|
            0 <= i < av@.len() ==> (#[trigger] av@[i]).has_release && av@[i].n_children
                == s.field_names@.len()) ==> (r matches Ok(plan)
            && crate::exchange::spec_batches_imported(av@, s, plan.batches@) && plan.schema_fields
            == s.field_names))),
{
    let (batches, schema_fields) = match crate::exchange::import_batches(arrays, schema) {
        Ok(p) => p,
        Err(e) => {
            return Err(e);
        }
    };
    Ok(AddPlan { batches, schema_fields, mode: parse_add_mode(mode) })
}

/// A decoded update request: the optional row filter and the column
/// assignments, in order.
#[derive(Debug, PartialEq, Eq, Clone)]
pub struct UpdatePlan {
    pub filter: Option<String>,
    pub assignments: Vec<(String, String)>,
}

/// Decodes an update request.  The assignments text must be a JSON array
/// of `[column, expression]` pairs; anything else is an immediate input
/// error, reported before any task is dispatched.
pub fn update_request(filter: Option<String>, column_sqlexprs_json: String) -> (r: Result<
    UpdatePlan,
    FfiError,
>)
    ensures
        json_string_pairs(column_sqlexprs_json@) matches Some(v) ==> (r matches Ok(plan)
            && plan.filter == filter && plan.assignments@ == v),
        json_string_pairs(column_sqlexprs_json@) is None ==> r matches Err(
            FfiError::InvalidJson(_),
        ),
{
    match parse_required_json_pairs(column_sqlexprs_json.as_str()) {
        Ok(assignments) => Ok(UpdatePlan { filter, assignments }),
        Err(m) => Err(FfiError::InvalidJson(m)),
    }
}

/// Decodes an add-columns request: the same pair shape as an update.
pub fn add_columns_request(transforms_json: String) -> (r: Result<Vec<(String, String)>, FfiError>)
    ensures
        json_string_pairs(transforms_json@) matches Some(v) ==> (r matches Ok(pairs) && pairs@
            == v),
        json_string_pairs(transforms_json@) is None ==> r matches Err(FfiError::InvalidJson(_)),
{
    match parse_required_json_pairs(transforms_json.as_str()) {
        Ok(pairs) => Ok(pairs),
        Err(m) => Err(FfiError::InvalidJson(m)),
    }
}

/// Decodes a drop-columns or wait-for-index name list.
pub fn parse_name_list(names_json: String) -> (r: Result<Vec<String>, FfiError>)
    ensures
        json_string_list(names_json@) matches Some(v) ==> (r matches Ok(names) && names@ == v),
        json_string_list(names_json@) is None ==> r matches Err(FfiError::InvalidJson(_)),
{
    match parse_required_json_list(names_json.as_str()) {
        Ok(names) => Ok(names),
        Err(m) => Err(FfiError::InvalidJson(m)),
    }
}

/// The timeout of a wait-for-index call: the given span when positive,
/// otherwise the five-minute default.
pub fn wait_timeout_millis(timeout_ms: i64) -> (r: u64)
    ensures
        timeout_ms > 0 ==> r == timeout_ms,
        timeout_ms <= 0 ==> r == 300000u64,
{
    if timeout_ms > 0 {
        timeout_ms as u64
    } else {
        300000
    }
}

/// One column alteration: the column's path, an optional new name, and an
/// optional change of nullability.
#[derive(Debug, PartialEq, Eq, Clone)]
pub struct ColumnAlterationPlan {
    pub path: String,
    pub rename: Option<String>,
    pub nullable: Option<bool>,
}

/// What the outside JSON parser reads out of `s` as an array of
/// alteration objects (path, optional rename, optional nullable); `None`
/// when `s` is not a JSON array.  An element without a path reads as the
/// empty path.
pub uninterp spec fn json_alterations(s: Seq<char>) -> Option<
    Seq<(String, Option<String>, Option<bool>)>,
>;

/// Relies on the JSON parser: `from_str` to an array of document values
/// and the member accessors.  The result is a function of the text alone.
#[verifier::external_body]
fn parse_alteration_entries(s: &str) -> (r: Result<
    Vec<(String, Option<String>, Option<bool>)>,
    String,
>)
    ensures
        r matches Ok(v) ==> json_alterations(s@) == Some(v@),
        r matches Err(_) ==> json_alterations(s@) is None,
{
    let raw: Vec<sonic_rs::Value> = match sonic_rs::from_str(s) {
        Ok(v) => v,
        Err(e) => return Err(e.to_string()),
    };
    Ok(
        raw.iter().map(
            |v|
                (
                    v.get("path").and_then(|p| p.as_str()).unwrap_or_default().to_string(),
                    v.get("rename").and_then(|n| n.as_str()).map(|x| x.to_string()),
                    v.get("nullable").and_then(|n| n.as_bool()),
                ),
        ).collect(),
    )
}

/// Decodes an alter-columns request into one plan per alteration object.
pub fn alter_columns_request(alterations_json: String) -> (r: Result<
    Vec<ColumnAlterationPlan>,
    FfiError,
>)
    ensures
        json_alterations(alterations_json@) matches Some(v) ==> (r matches Ok(plans)
            && plans@.len() == v.len() && forall|i: int|
            0 <= i < v.len() ==> (#[trigger] plans@[i]).path == v[i].0 && plans@[i].rename
                == v[i].1 && plans@[i].nullable == v[i].2),
        json_alterations(alterations_json@) is None ==> r matches Err(FfiError::InvalidJson(_)),
{
    let mut raw = match parse_alteration_entries(alterations_json.as_str()) {
        Ok(v) => v,
        Err(m) => {
            return Err(FfiError::InvalidJson(m));
        }
    };
    let mut plans: Vec<ColumnAlterationPlan> = Vec::new();
    let ghost all = raw@;
    while raw.len() > 0
        invariant
            plans@.len() + raw@.len() == all.len(),
            raw@ == all.skip(plans@.len() as int),
            forall|k: int|
                0 <= k < plans@.len() ==> (#[trigger] plans@[k]).path == all[k].0
                    && plans@[k].rename == all[k].1 && plans@[k].nullable == all[k].2,
        decreases raw@.len(),
    {
        let ghost done = plans@.len() as int;
        let (path, rename, nullable) = raw.remove(0);
        proof {
            assert((path, rename, nullable) == all[done]);
            assert(raw@ =~= all.skip(done + 1));
        }
        plans.push(ColumnAlterationPlan { path, rename, nullable });
    }
    Ok(plans)
}

/// A decoded take request: which columns to read back (each kept under
/// its own name) and whether to add the row-id column.
#[derive(Debug, PartialEq, Eq, Clone)]
pub struct TakePlan {
    pub columns: Option<Vec<(String, String)>>,
    pub with_row_id: bool,
}

/// Decodes a take-rows request (by offsets or by row ids).  A null column
/// list means all columns; a present one must be a JSON array of names,
/// and each name is selected under itself.
pub fn take_request(columns_json: Option<String>, with_row_id: bool) -> (r: Result<
    TakePlan,
    FfiError,
>)
    ensures
        columns_json is None ==> (r matches Ok(plan) && plan.columns is None && plan.with_row_id
            == with_row_id),
        columns_json matches Some(s) ==> {
            &&& json_string_list(s@) matches Some(v) ==> (r matches Ok(plan) && plan.with_row_id
                == with_row_id && (plan.columns matches Some(cols) && cols@.len() == v.len()
                && forall|i: int|
                    0 <= i < v.len() ==> ((#[trigger] cols@[i]).0@ == v[i]@ && cols@[i].1@
                        == v[i]@)))
            &&& json_string_list(s@) is None ==> r matches Err(FfiError::InvalidJson(_))
        },
{
    let columns = match columns_json {
        None => None,
        Some(s) => {
            let names = match parse_required_json_list(s.as_str()) {
                Ok(v) => v,
                Err(m) => {
                    return Err(FfiError::InvalidJson(m));
                }
            };
            let mut cols: Vec<(String, String)> = Vec::new();
            let mut i: usize = 0;
            while i < names.len()
                invariant
                    i <= names@.len(),
                    cols@.len() == i,
                    forall|k: int|
                        0 <= k < i ==> ((#[trigger] cols@[k]).0@ == names@[k]@ && cols@[k].1@
                            == names@[k]@),
                decreases names@.len() - i,
            {
                cols.push((names[i].clone(), names[i].clone()));
                i = i + 1;
            }
            Some(cols)
        }
    };
    Ok(TakePlan { columns, with_row_id })
}

/// The total row count of a batch sequence.
pub open spec fn spec_total_rows(batches: Seq<BatchData>) -> int
    decreases batches.len(),
{
    if batches.len() == 0 {
        0
    } else {
        spec_total_rows(batches.drop_last()) + batches.last().num_rows
    }
}

/// Gathers the batches of a finished query into one exported descriptor
/// pair: no batches give an empty batch over the result schema, a single
/// batch is exported as it is, and several are concatenated.  A total row
/// count beyond the descriptor's range is an exchange error.
pub fn collect_query_result(batches: Vec<BatchData>, schema_fields: Vec<String>) -> (r: Result<
    FfiCData,
    FfiError,
>)
    ensures
        batches@.len() == 0 ==> (r matches Ok(pair) && pair.array == spec_export_array(
            (BatchData { num_rows: 0, field_names: schema_fields }),
        ) && pair.schema.field_names == schema_fields && pair.schema.has_release),
        batches@.len() == 1 ==> (r matches Ok(pair) && pair.array == spec_export_array(
            batches@[0],
        ) && pair.schema.field_names == batches@[0].field_names && pair.schema.has_release),
        batches@.len() > 1 && spec_total_rows(batches@) <= u64::MAX ==> (r matches Ok(pair)
            && pair.array.length == spec_total_rows(batches@) && pair.array.has_release
            && pair.schema.field_names == schema_fields && pair.schema.has_release),
        batches@.len() > 1 && spec_total_rows(batches@) > u64::MAX ==> r matches Err(
            FfiError::Exchange(_),
        ),
{
    if batches.len() == 0 {
        return Ok(
            crate::exchange::export_batch(BatchData { num_rows: 0, field_names: schema_fields }),
        );
    }
    if batches.len() == 1 {
        let mut batches = batches;
        let only = batches.pop().unwrap();
        return Ok(crate::exchange::export_batch(only));
    }
    let mut total: u64 = 0;
    let mut i: usize = 0;
    let ghost all = batches@;
    proof {
        lemma_partial_rows_le(all, 0);
    }
    while i < batches.len()
        invariant
            batches@ == all,
            i <= all.len(),
            total == spec_total_rows(all.take(i as int)),
            spec_total_rows(all.take(i as int)) <= spec_total_rows(all),
        decreases all.len() - i,
    {
        proof {
            assert(all.take(i + 1).drop_last() =~= all.take(i as int));
            assert(all.take(i + 1).last() == all[i as int]);
            lemma_partial_rows_le(all, i + 1);
        }
        let rows = batches[i].num_rows;
        if total > u64::MAX - rows {
            proof {
                lemma_partial_rows_le(all, i + 1);
            }
            return Err(FfiError::Exchange("combined result exceeds the row limit".to_owned()));
        }
        total = total + rows;
        i = i + 1;
    }
    proof {
        assert(all.take(all.len() as int) =~= all);
    }
    Ok(
        crate::exchange::export_batch(BatchData { num_rows: total, field_names: schema_fields }),
    )
}

/// A prefix of the batches never holds more rows than the whole.
proof fn lemma_partial_rows_le(batches: Seq<BatchData>, i: int)
    requires
        0 <= i <= batches.len(),
    ensures
        spec_total_rows(batches.take(i)) <= spec_total_rows(batches),
    decreases batches.len() - i,
{
    if i < batches.len() {
        lemma_partial_rows_le(batches, i + 1);
        assert(batches.take(i + 1).drop_last() =~= batches.take(i));
    } else {
        assert(batches.take(i) =~= batches);
    }
}

/// Looks up a field id by name in a schema's field list; the first match
/// wins, and an absent name is `None`.
pub fn find_field_id(fields: &Vec<(String, u32)>, name: &str) -> (r: Option<u32>)
    ensures
        r == spec_find_field(fields@, name@),
{
    let mut i: usize = 0;
    while i < fields.len()
        invariant
            i <= fields@.len(),
            forall|k: int| 0 <= k < i ==> (#[trigger] fields@[k]).0@ != name@,
        decreases fields@.len() - i,
    {
        if crate::text::str_eq(fields[i].0.as_str(), name) {
            proof {
                lemma_find_field_skip(fields@, name@, i as int);
                assert(fields@.skip(i as int)[0] == fields@[i as int]);
            }
            return Some(fields[i].1);
        }
        i = i + 1;
    }
    proof {
        lemma_find_field_skip(fields@, name@, fields@.len() as int);
    }
    None
}

/// The id of the first field with the given name.
pub open spec fn spec_find_field(fields: Seq<(String, u32)>, name: Seq<char>) -> Option<u32>
    decreases fields.len(),
{
    if fields.len() == 0 {
        None
    } else if fields[0].0@ == name {
        Some(fields[0].1)
    } else {
        spec_find_field(fields.drop_first(), name)
    }
}

proof fn lemma_find_field_skip(fields: Seq<(String, u32)>, name: Seq<char>, i: int)
    requires
        0 <= i <= fields.len(),
        forall|k: int| 0 <= k < i ==> (#[trigger] fields[k]).0@ != name,
    ensures
        spec_find_field(fields, name) == spec_find_field(fields.skip(i), name),
    decreases i,
{
    if i > 0 {
        lemma_find_field_skip(fields, name, i - 1);
        assert(fields.skip(i - 1)[0] == fields[i - 1]);
        assert(fields.skip(i - 1).drop_first() =~= fields.skip(i));
    } else {
        assert(fields.skip(0) =~= fields);
    }
}

/// A decoded merge-insert request.
#[derive(Debug, PartialEq, Eq, Clone)]
pub struct MergePlan {
    pub on_columns: Vec<String>,
    pub when_matched_update_all: bool,
    pub matched_filter: Option<String>,
    pub when_not_matched_insert_all: bool,
    pub when_not_matched_by_source_delete: bool,
    pub source_delete_filter: Option<String>,
    pub use_index: bool,
    pub timeout_ms: Option<u64>,
}

/// Decodes a merge-insert request.  The match columns must be a JSON
/// array of names; the two filters apply only when their clause is on; a
/// negative timeout means none.
pub fn merge_insert_request(
    on_columns_json: String,
    when_matched_update_all: bool,
    matched_filter: Option<String>,
    when_not_matched_insert_all: bool,
    when_not_matched_by_source_delete: bool,
    source_delete_filter: Option<String>,
    use_index: bool,
    timeout_ms: i64,
) -> (r: Result<MergePlan, FfiError>)
    ensures
        json_string_list(on_columns_json@) matches Some(v) ==> (r matches Ok(plan)
            && plan.on_columns@ == v && plan.when_matched_update_all == when_matched_update_all
            && plan.matched_filter == matched_filter && plan.when_not_matched_insert_all
            == when_not_matched_insert_all && plan.when_not_matched_by_source_delete
            == when_not_matched_by_source_delete && plan.source_delete_filter
            == source_delete_filter && plan.use_index == use_index && (timeout_ms >= 0
            ==> plan.timeout_ms == Some(timeout_ms as u64)) && (timeout_ms < 0 ==> plan.timeout_ms
            is None)),
        json_string_list(on_columns_json@) is None ==> r matches Err(FfiError::InvalidJson(_)),
{
    let on_columns = match parse_required_json_list(on_columns_json.as_str()) {
        Ok(v) => v,
        Err(m) => {
            return Err(FfiError::InvalidJson(m));
        }
    };
    let timeout = if timeout_ms >= 0 {
        Some(timeout_ms as u64)
    } else {
        None
    };
    Ok(
        MergePlan {
            on_columns,
            when_matched_update_all,
            matched_filter,
            when_not_matched_insert_all,
            when_not_matched_by_source_delete,
            source_delete_filter,
            use_index,
            timeout_ms: timeout,
        },
    )
}

/// A decoded create-index request.
#[derive(Debug, PartialEq, Eq, Clone)]
pub struct CreateIndexPlan {
    pub columns: Vec<String>,
    pub index: IndexSpec,
    pub replace: bool,
    pub train: bool,
    pub name: Option<String>,
    pub wait_timeout_ms: Option<u64>,
}

/// Decodes a create-index request: the column list is required JSON, the
/// configuration defaults to the empty object when null, and the index
/// specification is built from the type code and the configuration.
pub fn create_index_request(
    columns_json: Option<String>,
    index_type: i32,
    config_json: Option<String>,
    replace: bool,
    name: Option<String>,
    train: bool,
    wait_timeout_ms: i64,
) -> (r: Result<CreateIndexPlan, FfiError>)
    ensures
        columns_json is None ==> (r matches Err(FfiError::NullArgument(n)) && n@
            == "columns_json"@),
        r matches Ok(plan) ==> plan.replace == replace && plan.train == train && plan.name == name
            && (wait_timeout_ms >= 0 ==> plan.wait_timeout_ms == Some(wait_timeout_ms as u64)) && (
        wait_timeout_ms < 0 ==> plan.wait_timeout_ms is None),
        columns_json matches Some(s) ==> (json_string_list(s@) is None ==> r matches Err(
            FfiError::InvalidJson(_),
        )),
        columns_json matches Some(s) ==> (json_string_list(s@) matches Some(v) ==> (r matches Ok(
            plan,
        ) ==> plan.columns@ == v)),
        r matches Ok(plan) ==> (config_json is None ==> spec_index_matches(
            plan.index,
            index_type,
            Seq::empty(),
        )),
        r matches Ok(plan) ==> (config_json matches Some(c)
            ==> (crate::index_config::json_config_entries(c@) matches Some(entries)
            && spec_index_matches(plan.index, index_type, entries))),
        columns_json matches Some(s) ==> (json_string_list(s@) matches Some(v) ==> (config_json
            matches Some(c) ==> (crate::index_config::json_config_entries(c@) is None
            ==> r matches Err(FfiError::InvalidJson(_))))),
        columns_json matches Some(s) ==> (json_string_list(s@) matches Some(v) ==> (config_json
            is None ==> (r is Ok <==> crate::index_config::spec_build_index_ok(
            index_type,
            Seq::empty(),
        )))),
        columns_json matches Some(s) ==> (json_string_list(s@) matches Some(v) ==> (config_json
            matches Some(c) ==> (crate::index_config::json_config_entries(c@) matches Some(
            entries,
        ) ==> (r is Ok <==> crate::index_config::spec_build_index_ok(index_type, entries))))),
        r matches Err(e) ==> (e is NullArgument || e is InvalidJson || e is InvalidInput),
{
    let columns_text = match columns_json {
        Some(s) => s,
        None => {
            return Err(FfiError::NullArgument("columns_json".to_owned()));
        }
    };
    let columns = match parse_required_json_list(columns_text.as_str()) {
        Ok(v) => v,
        Err(m) => {
            return Err(FfiError::InvalidJson(m));
        }
    };
    let entries: Vec<(String, ConfigValue)> = match config_json {
        None => Vec::new(),
        Some(cfg) => match parse_config_entries(cfg.as_str()) {
            Ok(v) => v,
            Err(m) => {
                return Err(FfiError::InvalidJson(m));
            }
        },
    };
    let index = match build_index(index_type, &entries) {
        Ok(spec) => spec,
        Err(m) => {
            return Err(FfiError::InvalidInput(m));
        }
    };
    let wait = if wait_timeout_ms >= 0 {
        Some(wait_timeout_ms as u64)
    } else {
        None
    };
    Ok(CreateIndexPlan { columns, index, replace, train, name, wait_timeout_ms: wait })
}

/// A decoded optimize request: how far back to prune, if at all.
#[derive(Clone, Copy, Debug, PartialEq, Eq, Structural)]
pub struct OptimizePlan {
    pub older_than_ms: Option<i64>,
    pub delete_unverified: bool,
}

/// Decodes an optimize request: a non-negative age prunes versions older
/// than it, a negative one keeps the default pruning.
pub fn optimize_request(cleanup_older_than_ms: i64, delete_unverified: bool) -> (r: OptimizePlan)
    ensures
        cleanup_older_than_ms >= 0 ==> r.older_than_ms == Some(cleanup_older_than_ms),
        cleanup_older_than_ms < 0 ==> r.older_than_ms is None,
        r.delete_unverified == delete_unverified,
{
    OptimizePlan {
        older_than_ms: if cleanup_older_than_ms >= 0 {
            Some(cleanup_older_than_ms)
        } else {
            None
        },
        delete_unverified,
    }
}

/// Builds the index statistics struct from the engine's answer; an
/// absent part count reads as zero.
pub fn index_stats_new(
    num_indexed_rows: u64,
    num_unindexed_rows: u64,
    kind: IndexKind,
    distance: Option<DistanceKind>,
    num_indices: Option<u32>,
) -> (r: FfiIndexStats)
    ensures
        r.num_indexed_rows == num_indexed_rows,
        r.num_unindexed_rows == num_unindexed_rows,
        r.index_type == spec_index_kind_code(kind),
        r.distance_type == spec_distance_kind_code(distance),
        num_indices matches Some(n) ==> r.num_indices == n,
        num_indices is None ==> r.num_indices == 0,
{
    FfiIndexStats {
        num_indexed_rows,
        num_unindexed_rows,
        index_type: index_type_to_ffi(&kind),
        distance_type: distance_type_to_ffi(distance),
        num_indices: match num_indices {
            Some(n) => n,
            None => 0,
        },
    }
}

/// Gates an operation that only local tables support: the check runs
/// before dispatch, and a remote table gets the not-supported error with
/// the operation's name.
pub fn require_native(is_native_table: bool, operation: &str) -> (r: Result<(), FfiError>)
    ensures
        is_native_table ==> r == Ok::<(), FfiError>(()),
        !is_native_table ==> (r matches Err(FfiError::NotSupported(m)) && m@ == operation@
            + " is only supported for local tables"@),
{
    if is_native_table {
        Ok(())
    } else {
        Err(
            FfiError::NotSupported(
                crate::text::concat_str(operation, " is only supported for local tables"),
            ),
        )
    }
}

/// Decodes a replace-field-metadata request: the metadata text must be a
/// JSON object of string pairs (a null pointer included is rejected),
/// and the named field must exist in the schema's field list, giving the
/// field id the engine is handed.
pub fn replace_field_metadata_request(
    field_name: String,
    metadata_json: Option<String>,
    schema_fields: &Vec<(String, u32)>,
) -> (r: Result<(u32, std::collections::HashMap<String, String>), FfiError>)
    ensures
        metadata_json is None ==> r matches Err(FfiError::InvalidInput(_)),
        metadata_json matches Some(s) ==> (crate::ffi::json_string_map(s@) is None ==> r matches
            Err(FfiError::InvalidInput(_))),
        metadata_json matches Some(s) ==> (crate::ffi::json_string_map(s@) matches Some(mm) ==> {
            &&& spec_find_field(schema_fields@, field_name@) matches Some(id) ==> (r matches Ok(p)
                && p.0 == id && p.1@ == mm)
            &&& spec_find_field(schema_fields@, field_name@) is None ==> (r matches Err(
                FfiError::InvalidInput(m),
            ) && m@ == "Field '"@ + field_name@ + "' not found in schema"@)
        }),
        r matches Err(FfiError::InvalidInput(m)) ==> (crate::ffi::spec_opt_map_decoded(
            metadata_json,
            None,
        ) ==> m@ == "metadata_json must be a valid JSON object"@),
{
    let metadata = match crate::ffi::parse_optional_json_map(metadata_json) {
        Some(m) => m,
        None => {
            return Err(
                FfiError::InvalidInput("metadata_json must be a valid JSON object".to_owned()),
            );
        }
    };
    let field_id = match find_field_id(schema_fields, field_name.as_str()) {
        Some(id) => id,
        None => {
            let mut message = crate::text::concat_str("Field '", field_name.as_str());
            message.push_str("' not found in schema");
            return Err(FfiError::InvalidInput(message));
        }
    };
    Ok((field_id, metadata))
}

/// Compaction counts of an optimize pass.
#[derive(Clone, Copy, Debug, PartialEq, Eq, Structural)]
pub struct CompactionStats {
    pub fragments_removed: u64,
    pub fragments_added: u64,
    pub files_removed: u64,
    pub files_added: u64,
}

/// Pruning counts of an optimize pass.
#[derive(Clone, Copy, Debug, PartialEq, Eq, Structural)]
pub struct PruneStats {
    pub bytes_removed: u64,
    pub old_versions: u64,
}

/// The JSON for an optional compaction report.
pub open spec fn spec_compaction_json(c: Option<CompactionStats>) -> Seq<char> {
    match c {
        None => "null"@,
        Some(s) => "{\"fragments_removed\":"@ + spec_dec(s.fragments_removed as nat)
            + ",\"fragments_added\":"@ + spec_dec(s.fragments_added as nat)
            + ",\"files_removed\":"@ + spec_dec(s.files_removed as nat) + ",\"files_added\":"@
            + spec_dec(s.files_added as nat) + "}"@,
    }
}

/// The JSON for an optional pruning report.
pub open spec fn spec_prune_json(p: Option<PruneStats>) -> Seq<char> {
    match p {
        None => "null"@,
        Some(s) => "{\"bytes_removed\":"@ + spec_dec(s.bytes_removed as nat)
            + ",\"old_versions\":"@ + spec_dec(s.old_versions as nat) + "}"@,
    }
}

/// The JSON answer of an optimize call.
pub open spec fn spec_optimize_json(c: Option<CompactionStats>, p: Option<PruneStats>) -> Seq<
    char,
> {
    "{\"compaction\":"@ + spec_compaction_json(c) + ",\"prune\":"@ + spec_prune_json(p) + "}"@
}

/// Renders the answer of an optimize call: the compaction and pruning
/// reports, each `null` when its pass reported nothing.
pub fn optimize_response_json(compaction: Option<CompactionStats>, prune: Option<PruneStats>) -> (r:
    String)
    ensures
        r@ == spec_optimize_json(compaction, prune),
{
    let mut out = String::new();
    out.push_str("{\"compaction\":");
    match compaction {
        None => out.push_str("null"),
        Some(s) => {
            out.push_str("{\"fragments_removed\":");
            push_u64(&mut out, s.fragments_removed);
            out.push_str(",\"fragments_added\":");
            push_u64(&mut out, s.fragments_added);
            out.push_str(",\"files_removed\":");
            push_u64(&mut out, s.files_removed);
            out.push_str(",\"files_added\":");
            push_u64(&mut out, s.files_added);
            out.push_str("}");
        }
    }
    out.push_str(",\"prune\":");
    match prune {
        None => out.push_str("null"),
        Some(s) => {
            out.push_str("{\"bytes_removed\":");
            push_u64(&mut out, s.bytes_removed);
            out.push_str(",\"old_versions\":");
            push_u64(&mut out, s.old_versions);
            out.push_str("}");
        }
    }
    out.push_str("}");
    proof {
        assert_seqs_equal!(out@, spec_optimize_json(compaction, prune));
    }
    out
}

/// One table version, as the boundary reports it: the number, the
/// timestamp already rendered as text, and the version's metadata pairs.
#[derive(Debug, PartialEq, Eq, Clone)]
pub struct VersionInfo {
    pub version: u64,
    pub timestamp: String,
    pub metadata: Vec<(String, String)>,
}

/// The JSON for one version.
pub open spec fn spec_version_json(v: VersionInfo) -> Seq<char> {
    "{\"version\":"@ + spec_dec(v.version as nat) + ",\"timestamp\":"@ + spec_quoted(v.timestamp@)
        + ",\"metadata\":"@ + spec_object_of_pairs(spec_pair_views(v.metadata@)) + "}"@
}

/// The JSON answer of a list-versions call: the versions, in order.
pub open spec fn spec_versions_json(versions: Seq<VersionInfo>) -> Seq<char> {
    seq!['['] + spec_joined(versions.map_values(|v: VersionInfo| spec_version_json(v)), seq![','])
        + seq![']']
}

/// Renders the answer of a list-versions call.
pub fn list_versions_response_json(versions: &Vec<VersionInfo>) -> (r: String)
    ensures
        r@ == spec_versions_json(versions@),
{
    let ghost members = versions@.map_values(|v: VersionInfo| spec_version_json(v));
    let mut out = String::new();
    out.push('[');
    let mut i: usize = 0;
    while i < versions.len()
        invariant
            i <= versions@.len(),
            members == versions@.map_values(|v: VersionInfo| spec_version_json(v)),
            out@ == seq!['['] + spec_joined(members.take(i as int), seq![',']),
        decreases versions@.len() - i,
    {
        if i > 0 {
            out.push(',');
        }
        out.push_str("{\"version\":");
        push_u64(&mut out, versions[i].version);
        out.push_str(",\"timestamp\":");
        push_quoted(&mut out, versions[i].timestamp.as_str());
        out.push_str(",\"metadata\":");
        push_object_of_pairs(&mut out, &versions[i].metadata);
        out.push_str("}");
        proof {
            assert(members.take(i + 1).drop_last() =~= members.take(i as int));
            assert(members.take(i + 1).last() == spec_version_json(versions@[i as int]));
            assert_seqs_equal!(out@, seq!['['] + spec_joined(members.take(i + 1), seq![',']));
        }
        i = i + 1;
    }
    out.push(']');
    proof {
        assert(members.take(versions@.len() as int) =~= members);
    }
    out
}

/// One tag of a table: its name, the version it marks, and the manifest
/// size recorded with it.
pub type TagInfo = (String, u64, u64);

/// The JSON member for one tag.
pub open spec fn spec_tag_member(t: TagInfo) -> Seq<char> {
    spec_quoted(t.0@) + seq![':'] + "{\"version\":"@ + spec_dec(t.1 as nat)
        + ",\"manifest_size\":"@ + spec_dec(t.2 as nat) + "}"@
}

/// The JSON answer of a list-tags call: one member per tag, in order.
pub open spec fn spec_tags_json(tags: Seq<TagInfo>) -> Seq<char> {
    seq!['{'] + spec_joined(tags.map_values(|t: TagInfo| spec_tag_member(t)), seq![',']) + seq!['}']
}

/// Renders the answer of a list-tags call.
pub fn tags_response_json(tags: &Vec<TagInfo>) -> (r: String)
    ensures
        r@ == spec_tags_json(tags@),
{
    let ghost members = tags@.map_values(|t: TagInfo| spec_tag_member(t));
    let mut out = String::new();
    out.push('{');
    let mut i: usize = 0;
    while i < tags.len()
        invariant
            i <= tags@.len(),
            members == tags@.map_values(|t: TagInfo| spec_tag_member(t)),
            out@ == seq!['{'] + spec_joined(members.take(i as int), seq![',']),
        decreases tags@.len() - i,
    {
        if i > 0 {
            out.push(',');
        }
        push_quoted(&mut out, tags[i].0.as_str());
        out.push(':');
        out.push_str("{\"version\":");
        push_u64(&mut out, tags[i].1);
        out.push_str(",\"manifest_size\":");
        push_u64(&mut out, tags[i].2);
        out.push_str("}");
        proof {
            assert(members.take(i + 1).drop_last() =~= members.take(i as int));
            assert(members.take(i + 1).last() == spec_tag_member(tags@[i as int]));
            assert_seqs_equal!(out@, seq!['{'] + spec_joined(members.take(i + 1), seq![',']));
        }
        i = i + 1;
    }
    out.push('}');
    proof {
        assert(members.take(tags@.len() as int) =~= members);
    }
    out
}

/// One index of a table, as the boundary reports it.
#[derive(Debug, PartialEq, Eq, Clone)]
pub struct IndexInfo {
    pub name: String,
    pub kind: IndexKind,
    pub columns: Vec<String>,
}

/// The JSON for one index: its name, its integer type code, and its
/// columns.
pub open spec fn spec_index_json(x: IndexInfo) -> Seq<char> {
    "{\"name\":"@ + spec_quoted(x.name@) + ",\"index_type\":"@ + spec_dec(
        spec_index_kind_code(x.kind) as nat,
    ) + ",\"columns\":"@ + spec_string_array(spec_views(x.columns@)) + "}"@
}

/// The JSON answer of a list-indices call: the indices, in order.
pub open spec fn spec_indices_json(indices: Seq<IndexInfo>) -> Seq<char> {
    seq!['['] + spec_joined(indices.map_values(|x: IndexInfo| spec_index_json(x)), seq![','])
        + seq![']']
}

/// Renders the answer of a list-indices call.
pub fn list_indices_response_json(indices: &Vec<IndexInfo>) -> (r: String)
    ensures
        r@ == spec_indices_json(indices@),
{
    let ghost members = indices@.map_values(|x: IndexInfo| spec_index_json(x));
    let mut out = String::new();
    out.push('[');
    let mut i: usize = 0;
    while i < indices.len()
        invariant
            i <= indices@.len(),
            members == indices@.map_values(|x: IndexInfo| spec_index_json(x)),
            out@ == seq!['['] + spec_joined(members.take(i as int), seq![',']),
        decreases indices@.len() - i,
    {
        if i > 0 {
            out.push(',');
        }
        out.push_str("{\"name\":");
        push_quoted(&mut out, indices[i].name.as_str());
        out.push_str(",\"index_type\":");
        let code = index_type_to_ffi(&indices[i].kind);
        push_u64(&mut out, code as u64);
        out.push_str(",\"columns\":");
        push_string_array(&mut out, &indices[i].columns);
        out.push_str("}");
        proof {
            assert(members.take(i + 1).drop_last() =~= members.take(i as int));
            assert(members.take(i + 1).last() == spec_index_json(indices@[i as int]));
            assert_seqs_equal!(out@, seq!['['] + spec_joined(members.take(i + 1), seq![',']));
        }
        i = i + 1;
    }
    out.push(']');
    proof {
        assert(members.take(indices@.len() as int) =~= members);
    }
    out
}

/// Builds the whole-table statistics struct from the engine's answer.
pub fn table_stats_new(
    total_bytes: u64,
    num_rows: u64,
    num_indices: u64,
    num_fragments: u64,
    num_small_fragments: u64,
    lengths: FfiFragmentSummaryStats,
) -> (r: FfiTableStats)
    ensures
        r == (FfiTableStats {
            total_bytes,
            num_rows,
            num_indices,
            fragment_stats: FfiFragmentStats { num_fragments, num_small_fragments, lengths },
        }),
{
    FfiTableStats {
        total_bytes,
        num_rows,
        num_indices,
        fragment_stats: FfiFragmentStats { num_fragments, num_small_fragments, lengths },
    }
}

} // verus!
