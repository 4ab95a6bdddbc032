//! The completion protocol: how a dispatched operation reports its one
//! outcome to the caller's callback.
//!
//! Every asynchronous entry point takes one completion reference; the
//! callback fires exactly once, from a pool thread, with a pair of
//! arguments.  On success the first argument is the one owned result and
//! the second is null; on failure the first is null and the second is an
//! owned error text.  The only pair with both arguments null is the
//! end-of-stream sentinel of a pull cursor, which reports no outcome.

use vstd::prelude::*;
use crate::error::FfiError;
use crate::exchange::{FfiBytes, FfiCData};
use crate::results::{FfiIndexStats, FfiMergeResult, FfiTableStats, FfiUpdateResult};

verus! {

/// The one owned value a successful completion carries.  The variant tells
/// the caller which free routine the value must go back through.
#[derive(Debug, PartialEq, Eq, Clone)]
pub enum Payload {
    /// A handle to a newly referenced object; released by its close routine.
    Handle(usize),
    /// A count or version, passed as a pointer-sized integer, nothing owned.
    Number(u64),
    /// An owned text; freed by the string free routine.
    Text(String),
    /// An exported descriptor pair; freed by the paired free routine.
    CData(FfiCData),
    /// An owned byte buffer; freed by the bytes free routine.
    Bytes(FfiBytes),
    /// A boxed update result; freed by its own free routine.
    Update(FfiUpdateResult),
    /// A boxed merge result; freed by its own free routine.
    Merge(FfiMergeResult),
    /// A boxed index statistics struct; freed by its own free routine.
    IndexStats(FfiIndexStats),
    /// A boxed table statistics struct; freed by its own free routine.
    TableStats(FfiTableStats),
    /// The non-null marker of an operation with no payload; nothing owned.
    Sentinel,
}

/// The argument pair handed to a completion callback.
#[derive(Debug, PartialEq, Eq, Clone)]
pub struct CallbackArgs {
    pub result: Option<Payload>,
    pub error: Option<String>,
}

/// Exactly one of the two arguments is present: a result with a null
/// error, or an error with a null result.
pub open spec fn spec_exclusive(args: CallbackArgs) -> bool {
    (args.result is Some) != (args.error is Some)
}

/// The end-of-stream sentinel: both arguments null.
pub open spec fn spec_end_of_stream(args: CallbackArgs) -> bool {
    args.result is None && args.error is None
}

/// `args` is the callback pair that reports `outcome`.
pub open spec fn spec_args_for(outcome: Result<Payload, FfiError>, args: CallbackArgs) -> bool {
    match outcome {
        Ok(p) => args.result == Some(p) && args.error is None,
        Err(e) => args.result is None && (args.error matches Some(m) && m@ == e.spec_message()),
    }
}

/// Law: the callback pair of any operation outcome is exclusive — a
/// success never carries an error text, a failure never carries a result,
/// and neither leaves both arguments null.  (The end-of-stream sentinel is
/// not an operation outcome; it is the one both-null pair.)
pub proof fn lemma_outcome_args_exclusive(outcome: Result<Payload, FfiError>, args: CallbackArgs)
    requires
        spec_args_for(outcome, args),
    ensures
        spec_exclusive(args),
        !spec_end_of_stream(args),
{
}

/// Builds the callback pair for an operation outcome.
pub fn completion_args(outcome: Result<Payload, FfiError>) -> (args: CallbackArgs)
    ensures
        spec_args_for(outcome, args),
        spec_exclusive(args),
{
    match outcome {
        Ok(p) => CallbackArgs { result: Some(p), error: None },
        Err(e) => {
            let message = e.message();
            CallbackArgs { result: None, error: Some(message) }
        }
    }
}

/// Builds the end-of-stream sentinel pair: null result, null error.
pub fn end_of_stream_args() -> (args: CallbackArgs)
    ensures
        spec_end_of_stream(args),
{
    CallbackArgs { result: None, error: None }
}

/// The delivery state of one dispatched call: its callback fires exactly
/// once.  Firing consumes the cell's one permission, so a verified driver
/// cannot report two outcomes for the same call.
pub struct CompletionCell {
    delivered: Option<CallbackArgs>,
}

impl CompletionCell {
    /// The callback has fired.
    pub closed spec fn fired(self) -> bool {
        self.delivered is Some
    }

    /// What the callback was handed, once fired.
    pub closed spec fn delivery(self) -> Option<CallbackArgs> {
        self.delivered
    }

    /// A cell for a freshly dispatched call: not yet fired.
    pub fn new() -> (cell: Self)
        ensures
            !cell.fired(),
    {
        CompletionCell { delivered: None }
    }

    /// Fires the callback with the given pair.  Requires that the call has
    /// not completed before: the callback cannot fire twice.
    pub fn fire(&mut self, args: CallbackArgs)
        requires
            !old(self).fired(),
        ensures
            final(self).fired(),
            final(self).delivery() == Some(args),
    {
        self.delivered = Some(args);
    }
}

} // verus!
