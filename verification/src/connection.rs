//! Connection-side boundary logic: decoding the parameters of connect,
//! open-table and create-table calls, and rendering the list answers.
//!
//! As on the table side, everything here runs synchronously before a task
//! is dispatched: required pointers are checked, JSON parameters are
//! decoded, defaults are applied.  The engine call itself happens in the
//! shell, on a pool executor, with the plan built here.

use vstd::prelude::*;
use std::collections::HashMap;
use crate::error::FfiError;
use crate::exchange::{
    import_batches, import_schema, ArrayDescriptor, BatchData, SchemaDescriptor,
};
use crate::ffi::{
    parse_optional_json_list, parse_optional_json_map, spec_opt_list_decoded, spec_opt_map_decoded,
};
use crate::handle::{release_step, HandleTable};
use crate::json_text::{push_quoted, push_string_array, spec_quoted, spec_string_array, spec_views};
use crate::text::str_eq;

verus! {

/// The boundary's model of an open connection: the dataset location it
/// was opened on.
#[derive(Debug, PartialEq, Eq, Clone)]
pub struct ConnectionState {
    pub uri: String,
}

/// Releases a connection handle.  Null is a safe no-op; a handle already
/// released is out of contract.
pub fn database_close(connections: &mut HandleTable<ConnectionState>, h: usize)
    requires
        h == 0 || old(connections).is_live(h),
    ensures
        final(connections).cells() == release_step(old(connections).cells(), h),
        h == 0 ==> final(connections).cells() == old(connections).cells(),
{
    connections.release(h);
}

/// The default capacity of the index cache, in bytes.
pub const DEFAULT_INDEX_CACHE_BYTES: u64 = 6 * 1024 * 1024 * 1024;

/// The default capacity of the metadata cache, in bytes.
pub const DEFAULT_METADATA_CACHE_BYTES: u64 = 1024 * 1024 * 1024;

/// The cache sizing of a session-backed connection.
#[derive(Clone, Copy, Debug, PartialEq, Eq, Structural)]
pub struct SessionConfig {
    pub index_cache_bytes: u64,
    pub metadata_cache_bytes: u64,
}

/// Decides the session of a connect call.  A negative size means "no
/// wish"; when both are negative no session is made.  Otherwise each
/// positive size is taken as given and a zero or negative one falls back
/// to its default.
pub fn session_config(index_cache_size_bytes: i64, metadata_cache_size_bytes: i64) -> (r: Option<
    SessionConfig,
>)
    ensures
        index_cache_size_bytes < 0 && metadata_cache_size_bytes < 0 ==> r is None,
        index_cache_size_bytes >= 0 || metadata_cache_size_bytes >= 0 ==> (r matches Some(c) && (
        index_cache_size_bytes > 0 ==> c.index_cache_bytes == index_cache_size_bytes) && (
        index_cache_size_bytes <= 0 ==> c.index_cache_bytes == DEFAULT_INDEX_CACHE_BYTES) && (
        metadata_cache_size_bytes > 0 ==> c.metadata_cache_bytes == metadata_cache_size_bytes) && (
        metadata_cache_size_bytes <= 0 ==> c.metadata_cache_bytes
            == DEFAULT_METADATA_CACHE_BYTES)),
{
    if index_cache_size_bytes >= 0 || metadata_cache_size_bytes >= 0 {
        Some(
            SessionConfig {
                index_cache_bytes: if index_cache_size_bytes > 0 {
                    index_cache_size_bytes as u64
                } else {
                    DEFAULT_INDEX_CACHE_BYTES
                },
                metadata_cache_bytes: if metadata_cache_size_bytes > 0 {
                    metadata_cache_size_bytes as u64
                } else {
                    DEFAULT_METADATA_CACHE_BYTES
                },
            },
        )
    } else {
        None
    }
}

/// A decoded connect request.  The read-consistency interval is
/// floating-point data the boundary only carries; the shell hands it to
/// the engine unchanged.
#[derive(Debug, PartialEq, Eq, Clone)]
pub struct ConnectPlan {
    pub uri: String,
    pub storage_options: Option<HashMap<String, String>>,
    pub session: Option<SessionConfig>,
}

/// Decodes a connect request.  The dataset location is required: null is
/// an immediate input error, reported before any task is dispatched.
pub fn connect_request(
    uri: Option<String>,
    storage_options_json: Option<String>,
    index_cache_size_bytes: i64,
    metadata_cache_size_bytes: i64,
) -> (r: Result<ConnectPlan, FfiError>)
    ensures
        uri is None ==> (r matches Err(FfiError::NullArgument(n)) && n@ == "uri"@),
        uri matches Some(u) ==> (r matches Ok(plan) && plan.uri == u && spec_opt_map_decoded(
            storage_options_json,
            plan.storage_options,
        ) && ((index_cache_size_bytes < 0 && metadata_cache_size_bytes < 0) ==> plan.session
            is None) && ((index_cache_size_bytes >= 0 || metadata_cache_size_bytes >= 0) ==> (
        plan.session matches Some(c) && (index_cache_size_bytes > 0 ==> c.index_cache_bytes
            == index_cache_size_bytes) && (index_cache_size_bytes <= 0 ==> c.index_cache_bytes
            == DEFAULT_INDEX_CACHE_BYTES) && (metadata_cache_size_bytes > 0
            ==> c.metadata_cache_bytes == metadata_cache_size_bytes) && (metadata_cache_size_bytes
            <= 0 ==> c.metadata_cache_bytes == DEFAULT_METADATA_CACHE_BYTES)))),
{
    let uri = match uri {
        Some(u) => u,
        None => {
            return Err(FfiError::NullArgument("uri".to_owned()));
        }
    };
    let storage_options = parse_optional_json_map(storage_options_json);
    let session = session_config(index_cache_size_bytes, metadata_cache_size_bytes);
    Ok(ConnectPlan { uri, storage_options, session })
}

/// A decoded open-table request.
#[derive(Debug, PartialEq, Eq, Clone)]
pub struct OpenTablePlan {
    pub table_name: String,
    pub storage_options: Option<HashMap<String, String>>,
    pub index_cache_size: Option<u32>,
    pub location: Option<String>,
    pub namespace: Option<Vec<String>>,
}

/// Decodes an open-table request.  The table name is required: null is
/// an immediate input error.  A zero cache size means the engine's
/// default.
pub fn open_table_request(
    table_name: Option<String>,
    storage_options_json: Option<String>,
    index_cache_size: u32,
    location: Option<String>,
    namespace_json: Option<String>,
) -> (r: Result<OpenTablePlan, FfiError>)
    ensures
        table_name is None ==> (r matches Err(FfiError::NullArgument(n)) && n@ == "table_name"@),
        table_name matches Some(name) ==> (r matches Ok(plan) && plan.table_name == name && (
        index_cache_size > 0 ==> plan.index_cache_size == Some(index_cache_size)) && (
        index_cache_size == 0 ==> plan.index_cache_size is None) && plan.location == location
            && spec_opt_map_decoded(storage_options_json, plan.storage_options)
            && spec_opt_list_decoded(namespace_json, plan.namespace)),
{
    let table_name = match table_name {
        Some(n) => n,
        None => {
            return Err(FfiError::NullArgument("table_name".to_owned()));
        }
    };
    let storage_options = parse_optional_json_map(storage_options_json);
    let namespace = parse_optional_json_list(namespace_json);
    Ok(
        OpenTablePlan {
            table_name,
            storage_options,
            index_cache_size: if index_cache_size > 0 {
                Some(index_cache_size)
            } else {
                None
            },
            location,
            namespace,
        },
    )
}

/// How a create-table call treats an existing table of the same name.
#[derive(Clone, Copy, Debug, PartialEq, Eq, Structural)]
pub enum CreateMode {
    Create,
    Overwrite,
    ExistOk,
}

/// The create mode the flags name: the exist-ok flag wins, then
/// `"overwrite"`, and anything else (a null mode included) creates.
pub open spec fn spec_create_mode(exist_ok: bool, mode: Option<String>) -> CreateMode {
    if exist_ok {
        CreateMode::ExistOk
    } else {
        match mode {
            None => CreateMode::Create,
            Some(m) => if m@ == "overwrite"@ {
                CreateMode::Overwrite
            } else {
                CreateMode::Create
            },
        }
    }
}

/// Decodes the create mode.
pub fn parse_create_mode(exist_ok: bool, mode: Option<String>) -> (r: CreateMode)
    ensures
        r == spec_create_mode(exist_ok, mode),
{
    if exist_ok {
        CreateMode::ExistOk
    } else {
        match mode {
            None => CreateMode::Create,
            Some(m) => {
                if str_eq(m.as_str(), "overwrite") {
                    CreateMode::Overwrite
                } else {
                    CreateMode::Create
                }
            }
        }
    }
}

/// The placeholder schema used when a create-empty-table call hands over
/// no schema descriptor: a table with no fields.
pub fn minimal_schema() -> (r: Vec<String>)
    ensures
        r@.len() == 0,
{
    Vec::new()
}

/// A decoded create-empty-table request.
#[derive(Debug, PartialEq, Eq, Clone)]
pub struct CreateEmptyTablePlan {
    pub table_name: String,
    pub schema_fields: Vec<String>,
    pub mode: CreateMode,
    pub storage_options: Option<HashMap<String, String>>,
    pub location: Option<String>,
    pub namespace: Option<Vec<String>>,
}

/// Decodes a create-empty-table request.  The name is required; a null
/// schema descriptor means the placeholder schema, a present one is
/// imported (and the caller's memory zeroed) before anything is
/// dispatched.
pub fn create_empty_table_request(
    table_name: Option<String>,
    schema: &mut Option<SchemaDescriptor>,
    mode: Option<String>,
    storage_options_json: Option<String>,
    location: Option<String>,
    namespace_json: Option<String>,
    exist_ok: bool,
) -> (r: Result<CreateEmptyTablePlan, FfiError>)
    ensures
        table_name is None ==> (r matches Err(FfiError::NullArgument(n)) && n@ == "table_name"@
            && *final(schema) == *old(schema)),
        table_name matches Some(name) ==> {
            &&& (*old(schema)) is None ==> (r matches Ok(plan) && plan.table_name == name
                && plan.schema_fields@.len() == 0)
            &&& (*old(schema)) matches Some(s) ==> ((*final(schema)) matches Some(fs)
                && fs.is_cleared()) && (s.has_release ==> (r matches Ok(plan) && plan.table_name
                == name && plan.schema_fields == s.field_names)) && (!s.has_release ==> r matches
                Err(FfiError::Exchange(_)))
            &&& r matches Ok(plan) ==> (plan.mode == spec_create_mode(exist_ok, mode)
                && spec_opt_map_decoded(storage_options_json, plan.storage_options)
                && spec_opt_list_decoded(namespace_json, plan.namespace) && plan.location
                == location)
        },
{
    let table_name = match table_name {
        Some(n) => n,
        None => {
            return Err(FfiError::NullArgument("table_name".to_owned()));
        }
    };
    let schema_fields = if schema.is_none() {
        minimal_schema()
    } else {
        match import_schema(schema) {
            Ok(fields) => fields,
            Err(e) => {
                return Err(e);
            }
        }
    };
    let mode = parse_create_mode(exist_ok, mode);
    let storage_options = parse_optional_json_map(storage_options_json);
    let namespace = parse_optional_json_list(namespace_json);
    Ok(
        CreateEmptyTablePlan {
            table_name,
            schema_fields,
            mode,
            storage_options,
            location,
            namespace,
        },
    )
}

/// A decoded create-table request with initial data.
#[derive(Debug, PartialEq, Eq, Clone)]
pub struct CreateTablePlan {
    pub table_name: String,
    pub batches: Vec<BatchData>,
    pub schema_fields: Vec<String>,
    pub mode: CreateMode,
    pub storage_options: Option<HashMap<String, String>>,
    pub location: Option<String>,
    pub namespace: Option<Vec<String>>,
}

/// Decodes a create-table request.  The name is required, and the batch
/// sequence is imported — sources zeroed — before anything is
/// dispatched; a failed import is reported immediately.
pub fn create_table_request(
    table_name: Option<String>,
    arrays: &mut Option<Vec<ArrayDescriptor>>,
    schema: &mut Option<SchemaDescriptor>,
    mode: Option<String>,
    storage_options_json: Option<String>,
    location: Option<String>,
    namespace_json: Option<String>,
    exist_ok: bool,
) -> (r: Result<CreateTablePlan, FfiError>)
    ensures
        table_name is None ==> (r matches Err(FfiError::NullArgument(n)) && n@ == "table_name"@
            && *final(arrays) == *old(arrays) && *final(schema) == *old(schema)),
        table_name is Some && ((*old(arrays)) is None || (*old(schema)) is None) ==> (r matches
            Err(FfiError::NullArgument(_)) && *final(arrays) == *old(arrays) && *final(schema)
            == *old(schema)),
        table_name is Some ==> ((*old(arrays)) matches Some(av) ==> ((*old(schema)) is Some
            && av@.len() == 0 ==> (r matches Err(FfiError::InvalidInput(_)) && *final(arrays)
            == *old(arrays) && *final(schema) == *old(schema)))),
        table_name is Some ==> ((*old(arrays)) matches Some(av) ==> ((*old(schema)) matches Some(
            s,
        ) ==> (av@.len() > 0 ==> (((*final(arrays)) matches Some(fa) && fa@.len() == av@.len()
            && forall|i: int|
            0 <= i < fa@.len() ==> (#[trigger] fa@[i]) == crate::exchange::spec_cleared_array())
            && ((*final(schema)) matches Some(fs) && fs.is_cleared()))))),
        r matches Ok(plan) ==> (table_name matches Some(name) && plan.table_name == name
            && plan.mode == spec_create_mode(exist_ok, mode) && spec_opt_map_decoded(
            storage_options_json,
            plan.storage_options,
        ) && spec_opt_list_decoded(namespace_json, plan.namespace) && plan.location == location),
        table_name is Some ==> ((*old(arrays)) matches Some(av) ==> ((*old(schema)) matches Some(
            s,
        ) ==> (av@.len() > 0 && s.has_release && (forall|i: int|
            0 <= i < av@.len() ==> (#[trigger] av@[i]).has_release && av@[i].n_children
                == s.field_names@.len()) ==> (r matches Ok(plan)
            && crate::exchange::spec_batches_imported(av@, s, plan.batches@)
            && plan.schema_fields == s.field_names)))),
{
    let table_name = match table_name {
        Some(n) => n,
        None => {
            return Err(FfiError::NullArgument("table_name".to_owned()));
        }
    };
    let (batches, schema_fields) = match import_batches(arrays, schema) {
        Ok(p) => p,
        Err(e) => {
            return Err(e);
        }
    };
    let mode = parse_create_mode(exist_ok, mode);
    let storage_options = parse_optional_json_map(storage_options_json);
    let namespace = parse_optional_json_list(namespace_json);
    Ok(
        CreateTablePlan {
            table_name,
            batches,
            schema_fields,
            mode,
            storage_options,
            location,
            namespace,
        },
    )
}

/// A decoded table-names request.
#[derive(Debug, PartialEq, Eq, Clone)]
pub struct TableNamesPlan {
    pub start_after: Option<String>,
    pub limit: Option<u32>,
    pub namespace: Option<Vec<String>>,
}

/// Decodes a table-names request: a zero limit means no limit.
pub fn table_names_request(
    start_after: Option<String>,
    limit: u32,
    namespace_json: Option<String>,
) -> (r: TableNamesPlan)
    ensures
        r.start_after == start_after,
        limit > 0 ==> r.limit == Some(limit),
        limit == 0 ==> r.limit is None,
        spec_opt_list_decoded(namespace_json, r.namespace),
{
    let namespace = parse_optional_json_list(namespace_json);
    TableNamesPlan {
        start_after,
        limit: if limit > 0 {
            Some(limit)
        } else {
            None
        },
        namespace,
    }
}

/// A decoded list-tables request.
#[derive(Debug, PartialEq, Eq, Clone)]
pub struct ListTablesPlan {
    pub page_token: Option<String>,
    pub limit: Option<u32>,
    pub namespace: Option<Vec<String>>,
}

/// Decodes a list-tables request: a zero limit means no limit.
pub fn list_tables_request(
    page_token: Option<String>,
    limit: u32,
    namespace_json: Option<String>,
) -> (r: ListTablesPlan)
    ensures
        r.page_token == page_token,
        limit > 0 ==> r.limit == Some(limit),
        limit == 0 ==> r.limit is None,
        spec_opt_list_decoded(namespace_json, r.namespace),
{
    let namespace = parse_optional_json_list(namespace_json);
    ListTablesPlan {
        page_token,
        limit: if limit > 0 {
            Some(limit)
        } else {
            None
        },
        namespace,
    }
}

/// Decodes a drop-table request.  The name is required: null is an
/// immediate input error, reported before any task is dispatched.
pub fn drop_table_request(table_name: Option<String>) -> (r: Result<String, FfiError>)
    ensures
        table_name is None ==> (r matches Err(FfiError::NullArgument(n)) && n@ == "table_name"@),
        table_name matches Some(name) ==> r == Ok::<String, FfiError>(name),
{
    match table_name {
        Some(n) => Ok(n),
        None => Err(FfiError::NullArgument("table_name".to_owned())),
    }
}

/// The JSON answer of a list-tables call.
pub open spec fn spec_list_tables_json(tables: Seq<String>, page_token: Option<String>) -> Seq<
    char,
> {
    "{\"tables\":"@ + spec_string_array(spec_views(tables)) + ",\"page_token\":"@ + (match page_token {
        None => "null"@,
        Some(t) => spec_quoted(t@),
    }) + "}"@
}

/// Renders the answer of a list-tables call: the names and the paging
/// token, `null` when the listing is complete.
pub fn list_tables_response_json(tables: &Vec<String>, page_token: &Option<String>) -> (r: String)
    ensures
        r@ == spec_list_tables_json(tables@, *page_token),
{
    let mut out = String::new();
    out.push_str("{\"tables\":");
    push_string_array(&mut out, tables);
    out.push_str(",\"page_token\":");
    match page_token {
        None => out.push_str("null"),
        Some(t) => push_quoted(&mut out, t.as_str()),
    }
    out.push_str("}");
    proof {
        vstd::assert_seqs_equal!(out@, spec_list_tables_json(tables@, *page_token));
    }
    out
}

} // verus!
