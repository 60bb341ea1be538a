//! The handshake orchestrator: a state machine from authorization code to
//! approved request.
//!
//! The machine owns every decision of the handshake; the caller owns the
//! outside work. Each non-terminal state carries exactly what the next
//! outside call needs; the caller performs that call (the pending lookup,
//! the token exchange, the identity fetch, the link lookup, the approval)
//! and hands the outcome back through [`step`]. A failure at any step is
//! terminal and leaves the pending request untouched, so the whole flow may
//! be retried with a fresh authorization code.

use vstd::prelude::*;
use vstd::string::StrSliceExecFns;

use crate::errors::AuthError;
use crate::provider::decode_token_spec;
use crate::provider::decode_token_response;
use crate::provider::decode_user_spec;
use crate::provider::decode_user_response;

verus! {

/// Whether one character may appear in a correlation token. Relies on
/// char::is_alphanumeric: membership in the Unicode letter and number
/// categories depends on the character alone.
pub uninterp spec fn char_is_alphanumeric(c: char) -> bool;

#[verifier::external_body]
fn is_alphanumeric_char(c: char) -> (r: bool)
    ensures
        r == char_is_alphanumeric(c),
{
    c.is_alphanumeric()
}

/// A well-shaped correlation token: alphanumeric characters only.
pub open spec fn code_is_valid(code: Seq<char>) -> bool {
    forall|i: int| 0 <= i < code.len() ==> char_is_alphanumeric(#[trigger] code[i])
}

/// Decides whether an access code is well-shaped. A code carrying a space
/// or punctuation character is rejected here, before any lookup or network
/// call is made.
pub fn validate_access_code(code: &str) -> (r: bool)
    ensures
        r == code_is_valid(code@),
{
    let n = code.unicode_len();
    let mut idx: usize = 0;
    while idx < n
        invariant
            idx <= n,
            n == code@.len(),
            forall|i: int| 0 <= i < idx ==> char_is_alphanumeric(#[trigger] code@[i]),
        decreases n - idx,
    {
        let c = code.get_char(idx);
        if !is_alphanumeric_char(c) {
            return false;
        }
        idx = idx + 1;
    }
    true
}

/// Where a handshake stands. Each non-terminal state names what has been
/// established and carries what the next outside call needs.
pub enum HandshakeState {
    /// The access code is well-shaped; next, look up the pending request
    /// carrying `access_code`.
    CodeValidated { access_code: String, authorization_code: String, method: String },
    /// A pending request was found; next, exchange `authorization_code` at
    /// the provider's token endpoint.
    PendingFound { request_id: i32, authorization_code: String, method: String },
    /// The exchange succeeded; next, fetch the external identity with
    /// `access_token` as the bearer credential.
    TokenObtained { request_id: i32, access_token: String, method: String },
    /// The identity is known; next, look up an internal-account link for
    /// `external_uid`.
    IdentityResolved { request_id: i32, external_uid: String, external_username: String, method: String },
    /// The link lookup answered (`None` is a normal outcome, not a
    /// failure); next, approve the request.
    LinkResolved {
        request_id: i32,
        external_uid: String,
        external_username: String,
        method: String,
        internal_account_id: Option<String>,
    },
    /// Terminal: the request was approved for this identity.
    Approved { external_uid: String, external_username: String },
    /// Terminal: the handshake aborted; the pending request is untouched.
    Failed { error: AuthError },
}

/// What the outside work answered. Bodies are handed back as raw text; the
/// machine itself decodes them.
pub enum HandshakeEvent {
    /// The outcome of the pending-request lookup.
    LookupFinished { result: Result<i32, AuthError> },
    /// The token endpoint's response body, or the transport failure that
    /// kept it from arriving.
    TokenFetched { result: Result<String, AuthError> },
    /// The current-user endpoint's response body, or the transport failure
    /// that kept it from arriving.
    IdentityFetched { result: Result<String, AuthError> },
    /// The internal-account link for the external identity, if one is
    /// already known.
    LinkChecked { internal_account_id: Option<String> },
    /// The outcome of the approval write.
    ApprovalFinished { result: Result<i32, AuthError> },
}

/// Where a handshake starts: `Failed(InvalidCode)` for an ill-shaped
/// access code, else `CodeValidated`.
pub open spec fn begin_spec(access_code: String, authorization_code: String, method: String) -> HandshakeState {
    if code_is_valid(access_code@) {
        HandshakeState::CodeValidated { access_code, authorization_code, method }
    } else {
        HandshakeState::Failed { error: AuthError::InvalidCode }
    }
}

/// The transition function. Every failure is terminal; an event that does
/// not answer the current state changes nothing.
pub open spec fn step_spec(state: HandshakeState, event: HandshakeEvent) -> HandshakeState {
    match (state, event) {
        (
            HandshakeState::CodeValidated { access_code, authorization_code, method },
            HandshakeEvent::LookupFinished { result },
        ) => match result {
            Ok(id) => HandshakeState::PendingFound { request_id: id, authorization_code, method },
            Err(e) => HandshakeState::Failed { error: e },
        },
        (
            HandshakeState::PendingFound { request_id, authorization_code, method },
            HandshakeEvent::TokenFetched { result },
        ) => match result {
            Ok(body) => match decode_token_spec(body@) {
                Ok(token) => HandshakeState::TokenObtained {
                    request_id,
                    access_token: token.access_token,
                    method,
                },
                Err(e) => HandshakeState::Failed { error: e },
            },
            Err(e) => HandshakeState::Failed { error: e },
        },
        (
            HandshakeState::TokenObtained { request_id, access_token, method },
            HandshakeEvent::IdentityFetched { result },
        ) => match result {
            Ok(body) => match decode_user_spec(body@) {
                Ok(user) => HandshakeState::IdentityResolved {
                    request_id,
                    external_uid: user.id,
                    external_username: user.username,
                    method,
                },
                Err(e) => HandshakeState::Failed { error: e },
            },
            Err(e) => HandshakeState::Failed { error: e },
        },
        (
            HandshakeState::IdentityResolved { request_id, external_uid, external_username, method },
            HandshakeEvent::LinkChecked { internal_account_id },
        ) => HandshakeState::LinkResolved {
            request_id,
            external_uid,
            external_username,
            method,
            internal_account_id,
        },
        (
            HandshakeState::LinkResolved { request_id, external_uid, external_username, method, internal_account_id },
            HandshakeEvent::ApprovalFinished { result },
        ) => match result {
            Ok(_) => HandshakeState::Approved { external_uid, external_username },
            Err(e) => HandshakeState::Failed { error: e },
        },
        (s, _) => s,
    }
}

/// Starts a handshake: validates the shape of the access code before
/// anything else happens.
pub fn begin(access_code: String, authorization_code: String, method: String) -> (r:
    HandshakeState)
    ensures
        r == begin_spec(access_code, authorization_code, method),
{
    if validate_access_code(access_code.as_str()) {
        HandshakeState::CodeValidated { access_code, authorization_code, method }
    } else {
        HandshakeState::Failed { error: AuthError::InvalidCode }
    }
}

/// Feeds the outcome of one outside call into the machine and returns the
/// next state.
pub fn step(state: HandshakeState, event: HandshakeEvent) -> (r: HandshakeState)
    ensures
        r == step_spec(state, event),
{
    match (state, event) {
        (
            HandshakeState::CodeValidated { access_code, authorization_code, method },
            HandshakeEvent::LookupFinished { result },
        ) => match result {
            Ok(id) => HandshakeState::PendingFound { request_id: id, authorization_code, method },
            Err(e) => HandshakeState::Failed { error: e },
        },
        (
            HandshakeState::PendingFound { request_id, authorization_code, method },
            HandshakeEvent::TokenFetched { result },
        ) => match result {
            Ok(body) => match decode_token_response(body.as_str()) {
                Ok(token) => HandshakeState::TokenObtained {
                    request_id,
                    access_token: token.access_token,
                    method,
                },
                Err(e) => HandshakeState::Failed { error: e },
            },
            Err(e) => HandshakeState::Failed { error: e },
        },
        (
            HandshakeState::TokenObtained { request_id, access_token, method },
            HandshakeEvent::IdentityFetched { result },
        ) => match result {
            Ok(body) => match decode_user_response(body.as_str()) {
                Ok(user) => HandshakeState::IdentityResolved {
                    request_id,
                    external_uid: user.id,
                    external_username: user.username,
                    method,
                },
                Err(e) => HandshakeState::Failed { error: e },
            },
            Err(e) => HandshakeState::Failed { error: e },
        },
        (
            HandshakeState::IdentityResolved { request_id, external_uid, external_username, method },
            HandshakeEvent::LinkChecked { internal_account_id },
        ) => HandshakeState::LinkResolved {
            request_id,
            external_uid,
            external_username,
            method,
            internal_account_id,
        },
        (
            HandshakeState::LinkResolved {
                request_id: _,
                external_uid,
                external_username,
                method: _,
                internal_account_id: _,
            },
            HandshakeEvent::ApprovalFinished { result },
        ) => match result {
            Ok(_) => HandshakeState::Approved { external_uid, external_username },
            Err(e) => HandshakeState::Failed { error: e },
        },
        (s, _) => s,
    }
}

/// Whether a handshake is over, successfully or not.
pub fn is_terminal(state: &HandshakeState) -> (r: bool)
    ensures
        r == (state is Approved || state is Failed),
{
    match state {
        HandshakeState::Approved { .. } => true,
        HandshakeState::Failed { .. } => true,
        _ => false,
    }
}

/// Law: a callback whose correlation token carries a character that is not
/// alphanumeric aborts with `InvalidCode` at once, in a terminal state, so
/// no lookup and no network call is ever made for it.
pub proof fn lemma_invalid_code_aborts_first(
    access_code: String,
    authorization_code: String,
    method: String,
)
    requires
        !code_is_valid(access_code@),
    ensures
        begin_spec(access_code, authorization_code, method) == (HandshakeState::Failed {
            error: AuthError::InvalidCode,
        }),
{
}

} // verus!
