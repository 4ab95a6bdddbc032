//! Verified core of a flat C-ABI boundary over an embedded columnar-data
//! engine.
//!
//! The crate verifies the boundary-crossing machinery itself: the opaque
//! handle protocol (reference-counted objects exposed as integer handles),
//! the completion-callback protocol, the least-loaded executor pool, the
//! columnar descriptor exchange with its double-free-prevention discipline,
//! and the synchronous last-error side channel.  The database operations
//! themselves are an outside collaborator reached from the unverified shell
//! around this library.

pub mod completion;
pub mod connection;
pub mod dispatch;
pub mod error;
pub mod exchange;
pub mod ffi;
pub mod handle;
pub mod index_config;
pub mod json_text;
pub mod query;
pub mod results;
pub mod table;
pub mod text;

pub use crate::exchange::free_ffi_bytes;
pub use crate::exchange::free_ffi_cdata;
pub use crate::exchange::free_ffi_schema;
pub use crate::ffi::free_string;
