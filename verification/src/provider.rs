//! The provider-facing half of the handshake: decoding the identity
//! provider's responses, the URL a login is redirected to, and the
//! single-permit gate that serializes outbound provider calls.
//!
//! The provider answers every call either with a success payload or with a
//! structured error payload carrying a numeric code. Decoding therefore has
//! a three-way outcome: the decoded value, `ProviderError(code)`, or
//! `DecodeError` when the body matches neither schema. The JSON parsing
//! itself is done by serde_json behind trusted wrappers; the dispatch
//! between the two schemas is verified here.

use vstd::prelude::*;
use vstd::string::StringExecFns;

use crate::errors::AuthError;

verus! {

/// A token-endpoint success payload.
#[derive(Debug, PartialEq, Eq)]
pub struct OAuthResponse {
    pub access_token: String,
    pub expires_in: i32,
    pub id_token: String,
    pub scope: String,
    pub token_type: String,
    pub refresh_token: Option<String>,
}

/// A current-user success payload: the stable external identity.
#[derive(Debug, PartialEq, Eq)]
pub struct User {
    pub id: String,
    pub username: String,
    pub discriminator: String,
    pub global_name: Option<String>,
    pub avatar: Option<String>,
}

/// The token payload a body decodes to, when it matches the success schema.
/// A function of the body text alone.
pub uninterp spec fn token_payload_of(body: Seq<char>) -> Option<OAuthResponse>;

/// The user payload a body decodes to, when it matches the success schema.
/// A function of the body text alone.
pub uninterp spec fn user_payload_of(body: Seq<char>) -> Option<User>;

/// The numeric code a body decodes to, when it matches the provider's
/// structured error schema. A function of the body text alone.
pub uninterp spec fn error_code_of(body: Seq<char>) -> Option<u32>;

/// Relies on serde_json::from_str into serde_json::Value and the accessors
/// Value::get, Value::as_str and Value::as_i64: whether a body parses as a
/// token payload, and what it holds, depends on the body text alone.
#[verifier::external_body]
fn parse_token_payload(body: &str) -> (r: Option<OAuthResponse>)
    ensures
        r == token_payload_of(body@),
{
    let v: serde_json::Value = serde_json::from_str(body).ok()?;
    Some(OAuthResponse {
        access_token: v.get("access_token")?.as_str()?.to_string(),
        expires_in: i32::try_from(v.get("expires_in")?.as_i64()?).ok()?,
        id_token: v.get("id_token")?.as_str()?.to_string(),
        scope: v.get("scope")?.as_str()?.to_string(),
        token_type: v.get("token_type")?.as_str()?.to_string(),
        refresh_token: v.get("refresh_token").and_then(|t| t.as_str()).map(String::from),
    })
}

/// Relies on serde_json::from_str into serde_json::Value and the accessors
/// Value::get and Value::as_str: whether a body parses as a user payload,
/// and what it holds, depends on the body text alone.
#[verifier::external_body]
fn parse_user_payload(body: &str) -> (r: Option<User>)
    ensures
        r == user_payload_of(body@),
{
    let v: serde_json::Value = serde_json::from_str(body).ok()?;
    Some(User {
        id: v.get("id")?.as_str()?.to_string(),
        username: v.get("username")?.as_str()?.to_string(),
        discriminator: v.get("discriminator")?.as_str()?.to_string(),
        global_name: v.get("global_name").and_then(|t| t.as_str()).map(String::from),
        avatar: v.get("avatar").and_then(|t| t.as_str()).map(String::from),
    })
}

/// Relies on serde_json::from_str into serde_json::Value and the accessors
/// Value::get and Value::as_u64: whether a body parses as the provider's
/// error schema, and which code it carries, depends on the body text alone.
#[verifier::external_body]
fn parse_error_code(body: &str) -> (r: Option<u32>)
    ensures
        r == error_code_of(body@),
{
    let v: serde_json::Value = serde_json::from_str(body).ok()?;
    u32::try_from(v.get("code")?.as_u64()?).ok()
}

/// The three-way decode of a token-endpoint body: the token payload when
/// the body matches the success schema, `ProviderError` when it matches the
/// error schema instead, `DecodeError` when it matches neither.
pub open spec fn decode_token_spec(body: Seq<char>) -> Result<OAuthResponse, AuthError> {
    match token_payload_of(body) {
        Some(p) => Ok(p),
        None => match error_code_of(body) {
            Some(c) => Err(AuthError::ProviderError(c)),
            None => Err(AuthError::DecodeError),
        },
    }
}

/// The three-way decode of a current-user body.
pub open spec fn decode_user_spec(body: Seq<char>) -> Result<User, AuthError> {
    match user_payload_of(body) {
        Some(p) => Ok(p),
        None => match error_code_of(body) {
            Some(c) => Err(AuthError::ProviderError(c)),
            None => Err(AuthError::DecodeError),
        },
    }
}

/// Decodes what the provider's token endpoint answered to a grant exchange.
pub fn decode_token_response(body: &str) -> (r: Result<OAuthResponse, AuthError>)
    ensures
        r == decode_token_spec(body@),
{
    match parse_token_payload(body) {
        Some(p) => Ok(p),
        None => match parse_error_code(body) {
            Some(c) => Err(AuthError::ProviderError(c)),
            None => Err(AuthError::DecodeError),
        },
    }
}

/// Decodes what the provider's current-user endpoint answered to a
/// bearer-credential fetch.
pub fn decode_user_response(body: &str) -> (r: Result<User, AuthError>)
    ensures
        r == decode_user_spec(body@),
{
    match parse_user_payload(body) {
        Some(p) => Ok(p),
        None => match parse_error_code(body) {
            Some(c) => Err(AuthError::ProviderError(c)),
            None => Err(AuthError::DecodeError),
        },
    }
}

/// The provider's authorize URL for a login: the access code rides along as
/// the `state` parameter and becomes the correlation token of the callback.
pub fn authorize_url(client_id: &str, redirect_url: &str, access_code: &str) -> (r: String)
    ensures
        r@ == "https://discord.com/oauth2/authorize?client_id="@ + client_id@
            + "&response_type=code&redirect_uri="@ + redirect_url@ + "&scope=identify&state="@
            + access_code@,
{
    let mut url = String::from_str("https://discord.com/oauth2/authorize?client_id=");
    url.append(client_id);
    url.append("&response_type=code&redirect_uri=");
    url.append(redirect_url);
    url.append("&scope=identify&state=");
    url.append(access_code);
    url
}

/// The single-permit gate in front of the provider. The provider's rate
/// limit is global per credential, so every outbound call must hold this
/// gate for its whole request/response cycle; a second caller is turned
/// away until the holder releases it.
pub struct ProviderGate {
    held: bool,
}

impl ProviderGate {
    /// Whether some caller holds the permit.
    pub closed spec fn is_held(&self) -> bool {
        self.held
    }

    /// A fresh gate, held by nobody.
    pub fn new() -> (g: ProviderGate)
        ensures
            !g.is_held(),
    {
        ProviderGate { held: false }
    }

    /// Takes the permit when it is free; reports whether it was taken.
    /// After the call the permit is held either way, so at most one caller
    /// ever holds it.
    pub fn try_acquire(&mut self) -> (r: bool)
        ensures
            r == !old(self).is_held(),
            final(self).is_held(),
    {
        let free = !self.held;
        self.held = true;
        free
    }

    /// Gives the permit back; the next caller may take it.
    pub fn release(&mut self)
        ensures
            !final(self).is_held(),
    {
        self.held = false;
    }
}

} // verus!
