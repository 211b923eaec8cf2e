//! Errors reported by the library.

use vstd::prelude::*;

verus! {

/// Errors that the library reports.
#[derive(Debug, Clone, Copy, PartialEq, Eq, Structural)]
pub enum Error {
    /// A generic failure (`NS_ERROR_FAILURE`): a cryptographic operation failed, or a nonce
    /// was exhausted.
    Failure,
    /// An argument was malformed (`NS_ERROR_INVALID_ARG`).
    InvalidArgument,
    /// The object is not in a state that allows this operation
    /// (`NS_ERROR_DOM_INVALID_STATE_ERR`).
    InvalidState,
    /// An internal invariant did not hold.
    Internal,
    /// The operation is not implemented (`NS_ERROR_NOT_IMPLEMENTED`).
    NotImplemented,
}

/// The library's result type.
pub type Result<T> = core::result::Result<T, Error>;

} // verus!
