//! Error kinds surfaced by dispatch.

use vstd::prelude::*;

verus! {

/// A structured dispatch error.
///
/// Every failed tool call surfaces exactly one of these; none is retried at
/// this layer.
#[derive(Debug, PartialEq, Eq)]
pub enum McpError {
    /// A required argument was absent, naming the field.
    MissingArg(String),
    /// An argument was present but unusable, naming the field and a reason.
    InvalidArg {
        /// The argument's field name.
        name: String,
        /// Why the argument was rejected.
        reason: String,
    },
    /// No tool of this name is registered.
    UnknownTool(String),
    /// A branch switch named a branch that does not exist.
    BranchNotFound(String),
    /// A write command was rejected because the store is read-only,
    /// naming the operation.
    AccessDenied(String),
    /// An error reported by the backing store, passed through verbatim.
    Store {
        /// The store's error code.
        code: String,
        /// The store's error message.
        message: String,
    },
    /// An invariant violation, such as an unexpected output shape for a
    /// known command.
    Internal(String),
}

/// An error reported by the backing store, as a plain code and message.
#[derive(Debug, PartialEq, Eq)]
pub struct StoreFault {
    /// The store's error code.
    pub code: String,
    /// The store's error message.
    pub message: String,
}

} // verus!
