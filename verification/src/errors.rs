//! The failure taxonomy of the authentication handshake.

use vstd::prelude::*;

verus! {

/// Everything that can stop a handshake.
///
/// `NotFoundOrExpired` also answers an approval that finds no pending
/// request, so that a request already approved is never approved twice.
#[derive(Debug, Clone, Copy, PartialEq, Eq, Structural)]
pub enum AuthError {
    /// The correlation token is malformed (not alphanumeric).
    InvalidCode,
    /// No pending request with the given code inside the freshness window.
    NotFoundOrExpired,
    /// The provider answered with a structured error payload carrying a code.
    ProviderError(u32),
    /// A network-level failure while talking to the provider.
    TransportError,
    /// The provider's response matched neither the success nor the error schema.
    DecodeError,
    /// A persistence failure; callers must not assume partial writes succeeded.
    StoreError,
}

} // verus!
