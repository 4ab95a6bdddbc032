//! Query handles: the borrowing construction of a query from a table, the
//! turn from a plain query into a vector query, and the free routines.
//!
//! A query object is reference-counted like every other boundary object.
//! Creating a query borrows the table handle without consuming it; turning
//! a query into a vector query borrows the query and produces a fresh
//! handle.  The query vector itself is floating-point data that only the
//! engine reads; the boundary logic records its length and carries the
//! payload through untouched.

use vstd::prelude::*;
use crate::error::FfiError;
use crate::handle::{clone_step, HandleTable};

verus! {

/// The boundary's model of a plain query: the table handle it was built
/// from.
#[derive(Debug, PartialEq, Eq, Clone)]
pub struct QueryState {
    pub table: usize,
}

/// The boundary's model of a vector query: the query it came from, the
/// length of the query vector handed over, and the column to search.
#[derive(Debug, PartialEq, Eq, Clone)]
pub struct VectorQueryState {
    pub query: usize,
    pub vector_len: usize,
    pub column: Option<String>,
}

/// Creates a query over the table behind `table_handle`.  The table
/// handle is borrowed, never consumed: it stays valid with its count
/// unchanged, and the new query holds its own fresh handle.
pub fn table_create_query(
    tables: &HandleTable<crate::table::TableState>,
    queries: &mut HandleTable<QueryState>,
    table_handle: usize,
) -> (q: usize)
    requires
        tables.is_live(table_handle),
        old(queries).cells().len() < usize::MAX,
    ensures
        final(queries).cells() == old(queries).cells().push(
            Some((QueryState { table: table_handle }, 1nat)),
        ),
        final(queries).is_live(q),
        final(queries).value_of(q) == (QueryState { table: table_handle }),
        final(queries).count_of(q) == 1,
{
    queries.create(QueryState { table: table_handle })
}

/// Turns the query behind `query_handle` into a vector query searching
/// for the given vector.  The query handle is borrowed, not consumed; a
/// null vector pointer is an immediate input error and no handle is made.
pub fn query_nearest_to(
    queries: &HandleTable<QueryState>,
    vector_queries: &mut HandleTable<VectorQueryState>,
    query_handle: usize,
    vector_len: Option<usize>,
) -> (r: Result<usize, FfiError>)
    requires
        queries.is_live(query_handle),
        old(vector_queries).cells().len() < usize::MAX,
    ensures
        vector_len is None ==> (r matches Err(FfiError::NullArgument(n)) && n@ == "vector"@
            && final(vector_queries).cells() == old(vector_queries).cells()),
        vector_len matches Some(len) ==> (r matches Ok(h) && final(vector_queries).cells() == old(
            vector_queries,
        ).cells().push(
            Some((VectorQueryState { query: query_handle, vector_len: len, column: None }, 1nat)),
        ) && final(vector_queries).is_live(h) && final(vector_queries).value_of(h) == (
        VectorQueryState { query: query_handle, vector_len: len, column: None })),
{
    match vector_len {
        None => Err(FfiError::NullArgument("vector".to_owned())),
        Some(len) => Ok(
            vector_queries.create(
                VectorQueryState { query: query_handle, vector_len: len, column: None },
            ),
        ),
    }
}

/// Names the column a vector query searches, producing a fresh vector
/// query handle; the input handle is borrowed, not consumed.
pub fn vector_query_column(
    vector_queries: &mut HandleTable<VectorQueryState>,
    vq_handle: usize,
    column: String,
) -> (h: usize)
    requires
        old(vector_queries).is_live(vq_handle),
        old(vector_queries).cells().len() < usize::MAX,
    ensures
        final(vector_queries).is_live(h),
        final(vector_queries).value_of(h).query == old(vector_queries).value_of(vq_handle).query,
        final(vector_queries).value_of(h).vector_len == old(vector_queries).value_of(
            vq_handle,
        ).vector_len,
        final(vector_queries).value_of(h).column == Some(column),
        final(vector_queries).is_live(vq_handle),
        final(vector_queries).count_of(vq_handle) == old(vector_queries).count_of(vq_handle),
{
    let base = vector_queries.borrow(vq_handle);
    let next = VectorQueryState {
        query: base.query,
        vector_len: base.vector_len,
        column: Some(column),
    };
    vector_queries.create(next)
}

/// Releases a query handle.  Null is a safe no-op; releasing a handle
/// already freed is out of contract.
pub fn query_free(queries: &mut HandleTable<QueryState>, h: usize)
    requires
        h == 0 || old(queries).is_live(h),
    ensures
        final(queries).cells() == crate::handle::release_step(old(queries).cells(), h),
        h == 0 ==> final(queries).cells() == old(queries).cells(),
{
    queries.release(h);
}

/// Releases a vector query handle.  Null is a safe no-op.
pub fn vector_query_free(vector_queries: &mut HandleTable<VectorQueryState>, h: usize)
    requires
        h == 0 || old(vector_queries).is_live(h),
    ensures
        final(vector_queries).cells() == crate::handle::release_step(
            old(vector_queries).cells(),
            h,
        ),
        h == 0 ==> final(vector_queries).cells() == old(vector_queries).cells(),
{
    vector_queries.release(h);
}

} // verus!
