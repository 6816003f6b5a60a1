//! The error taxonomy of the service layer.
//!
//! Every component returns its failures as one of these typed results; the
//! service maps them one to one to boundary-level failure codes and never
//! swallows or reinterprets them.

use vstd::prelude::*;

verus! {

/// Why a request's credentials were rejected.
#[derive(Debug, Clone, Copy, PartialEq, Eq)]
pub enum AuthError {
    /// The request carried zero or several credential values, or zero or
    /// several identity values; exactly one of each is required.
    BadCount,
    /// The identity is unknown to the registry, or its credential does not
    /// match the presented one.
    Invalid,
}

/// Why a request's body was rejected before any work was done.
#[derive(Debug, Clone, Copy, PartialEq, Eq)]
pub enum ValidationError {
    /// The message text is empty or structurally invalid.
    MalformedInput,
}

/// Why the durable persistence step of a train call failed.
#[derive(Debug, Clone, Copy, PartialEq, Eq)]
pub enum StorageError {
    /// Reading persisted state failed.
    ReadFailure,
    /// Writing the updated state durably failed; the previously committed
    /// model is preserved and still servable.
    WriteFailure,
}

/// Why the model store could not be brought up at startup.
///
/// First startup from nothing cannot fail (building and serializing the
/// empty model owe success), so the one condition left is corrupt durable
/// state.
#[derive(Debug, Clone, Copy, PartialEq, Eq)]
pub enum LoadError {
    /// Durable state exists but is unreadable or unparseable. Fatal: the
    /// process must not serve requests with an unknown model.
    CorruptState,
}

/// A component failure as the service surfaces it to the boundary.
#[derive(Debug, Clone, Copy, PartialEq, Eq)]
pub enum ServiceError {
    Auth(AuthError),
    Validation(ValidationError),
    Storage(StorageError),
}

} // verus!
