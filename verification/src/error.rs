//! The closed error taxonomy of the gateway: one variant per backend
//! failure kind, matched exhaustively by the outbound pipeline stage.

use vstd::prelude::*;

verus! {

/// Every per-request failure the gateway can report.
#[derive(Debug, Clone, Copy, PartialEq, Eq, Structural)]
pub enum GatewayError {
    /// The request body or path was malformed.
    RequestShape,
    /// The directory rejected the supplied credentials.
    InvalidCredentials,
    /// The directory could not be reached or the bind attempt failed
    /// outright.
    DirectoryUnavailable,
    /// The directory answered the bind with an unexpected result code.
    DirectoryError(i32),
    /// The token string is not a well-formed 128-bit identifier.
    InvalidToken,
    /// No record is held for the token: it was revoked, expired, or
    /// never existed.
    TokenNotFound,
    /// The key-value store could not be reached.
    StoreUnavailable,
}

} // verus!
