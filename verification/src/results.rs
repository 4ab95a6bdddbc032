//! The C-compatible result structs handed across the boundary, and their
//! matched free routines.
//!
//! Each struct is heap-allocated by the boundary, returned through a
//! completion callback, and owned by the caller until passed to its one
//! matching free routine.  A null pointer (modeled as `None`) is a safe
//! no-op for every free routine; freeing the same pointer twice is out of
//! the boundary's contract.

use vstd::prelude::*;

verus! {

/// Result of an update operation.
#[derive(Clone, Copy, Debug, PartialEq, Eq, Structural)]
pub struct FfiUpdateResult {
    pub rows_updated: u64,
    pub version: u64,
}

/// Result of a merge-insert operation.
#[derive(Clone, Copy, Debug, PartialEq, Eq, Structural)]
pub struct FfiMergeResult {
    pub version: u64,
    pub num_inserted_rows: u64,
    pub num_updated_rows: u64,
    pub num_deleted_rows: u64,
    pub num_attempts: u32,
}

/// Statistics of one index.  `index_type` and `distance_type` carry the
/// integer codes of the boundary's enum conventions.
#[derive(Clone, Copy, Debug, PartialEq, Eq, Structural)]
pub struct FfiIndexStats {
    pub num_indexed_rows: u64,
    pub num_unindexed_rows: u64,
    pub index_type: i32,
    pub distance_type: i32,
    pub num_indices: u32,
}

/// Summary statistics over fragment row counts.
#[derive(Clone, Copy, Debug, PartialEq, Eq, Structural)]
pub struct FfiFragmentSummaryStats {
    pub min: u64,
    pub max: u64,
    pub mean: u64,
    pub p25: u64,
    pub p50: u64,
    pub p75: u64,
    pub p99: u64,
}

/// Fragment-level statistics of a table.
#[derive(Clone, Copy, Debug, PartialEq, Eq, Structural)]
pub struct FfiFragmentStats {
    pub num_fragments: u64,
    pub num_small_fragments: u64,
    pub lengths: FfiFragmentSummaryStats,
}

/// Whole-table statistics.
#[derive(Clone, Copy, Debug, PartialEq, Eq, Structural)]
pub struct FfiTableStats {
    pub total_bytes: u64,
    pub num_rows: u64,
    pub num_indices: u64,
    pub fragment_stats: FfiFragmentStats,
}

/// Frees an update result.  Null is a safe no-op.
pub fn table_update_result_free(ptr: Option<FfiUpdateResult>) {
    match ptr {
        Some(_) => {}
        None => {}
    }
}

/// Frees a merge result.  Null is a safe no-op.
pub fn table_merge_result_free(ptr: Option<FfiMergeResult>) {
    match ptr {
        Some(_) => {}
        None => {}
    }
}

/// Frees an index statistics struct.  Null is a safe no-op.
pub fn table_index_stats_free(ptr: Option<FfiIndexStats>) {
    match ptr {
        Some(_) => {}
        None => {}
    }
}

/// Frees a table statistics struct.  Null is a safe no-op.
pub fn table_stats_free(ptr: Option<FfiTableStats>) {
    match ptr {
        Some(_) => {}
        None => {}
    }
}

} // verus!
