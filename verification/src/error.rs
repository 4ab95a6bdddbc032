//! Error taxonomy of the boundary layer and the synchronous last-error slot.
//!
//! Failures are either input errors caught at the boundary (a null required
//! argument, malformed JSON), exchange errors raised while moving columnar
//! descriptors, or errors of the delegated engine forwarded verbatim as text.
//! Entry points with a completion callback report errors through the
//! callback; the few fully synchronous entry points record them in an
//! [`ErrorSlot`], whose accessor takes (reads and clears) the pending text.

use vstd::prelude::*;
use crate::text::concat_str;

verus! {

/// A failure of a boundary call.
#[derive(Clone, Debug, PartialEq, Eq)]
pub enum FfiError {
    /// A required pointer argument was null; carries the argument's name.
    NullArgument(String),
    /// A structured text parameter did not parse; carries the parser's text.
    InvalidJson(String),
    /// A parameter parsed but did not satisfy the call's rules.
    InvalidInput(String),
    /// A columnar descriptor could not be imported or exported.
    Exchange(String),
    /// The operation is not available for this kind of table.
    NotSupported(String),
    /// The delegated engine failed; its own message, forwarded verbatim.
    Delegated(String),
}

impl FfiError {
    /// The message a caller sees, as a mathematical character sequence.
    pub open spec fn spec_message(self) -> Seq<char> {
        match self {
            FfiError::NullArgument(name) => "required argument is null: "@ + name@,
            FfiError::InvalidJson(m) => "invalid JSON: "@ + m@,
            FfiError::InvalidInput(m) => m@,
            FfiError::Exchange(m) => m@,
            FfiError::NotSupported(m) => m@,
            FfiError::Delegated(m) => m@,
        }
    }

    /// Renders the error as the text handed across the boundary.
    pub fn message(&self) -> (m: String)
        ensures
            m@ == self.spec_message(),
    {
        match self {
            FfiError::NullArgument(name) => concat_str("required argument is null: ", name.as_str()),
            FfiError::InvalidJson(t) => concat_str("invalid JSON: ", t.as_str()),
            FfiError::InvalidInput(t) => t.clone(),
            FfiError::Exchange(t) => t.clone(),
            FfiError::NotSupported(t) => t.clone(),
            FfiError::Delegated(t) => t.clone(),
        }
    }
}

/// The last-error slot used by fully synchronous calls, which have no
/// completion callback to carry an error argument.  One writer and one
/// reader per call site: a write overwrites any unread text, and the
/// accessor clears the slot as it reads.
pub struct ErrorSlot {
    current: Option<String>,
}

impl ErrorSlot {
    /// The pending message, if one was recorded and not yet read.
    pub closed spec fn pending(self) -> Option<Seq<char>> {
        match self.current {
            Option::Some(s) => Option::Some(s@),
            Option::None => Option::None,
        }
    }

    /// A fresh slot with nothing pending.
    pub fn new() -> (slot: Self)
        ensures
            slot.pending() is None,
    {
        ErrorSlot { current: None }
    }

    /// Records a failure message, overwriting any prior unread value.
    pub fn set_last_error(&mut self, message: String)
        ensures
            final(self).pending() == Option::Some(message@),
    {
        self.current = Some(message);
    }

    /// Takes the pending message: returns it and clears the slot, or
    /// returns nothing when no failure is pending.
    pub fn take_last_error(&mut self) -> (r: Option<String>)
        ensures
            final(self).pending() is None,
            match r {
                Option::Some(m) => old(self).pending() == Option::Some(m@),
                Option::None => old(self).pending() is None,
            },
    {
        let r = self.current.take();
        r
    }
}

} // verus!
