//! Links a player's in-game session to an external identity obtained through
//! a third-party OAuth provider.
//!
//! The core of the crate is the authentication handshake: a short-lived,
//! single-use authentication request is validated by access code, exchanged
//! against the provider, resolved against any existing internal-account link,
//! and then atomically approved.

pub mod errors;
pub mod handshake;
pub mod provider;
pub mod store;

use vstd::prelude::*;

verus! {

/// The maximum age, in seconds, a pending request stays eligible for lookup.
pub const FRESHNESS_WINDOW_SECS: u64 = 7200;

/// A timestamp `ts` is fresh at time `now` when it is no older than the
/// freshness window. Timestamps in the future count as fresh.
pub open spec fn is_fresh(ts: int, now: int) -> bool {
    now - ts <= FRESHNESS_WINDOW_SECS
}

/// Decides freshness of a timestamp against the current time.
pub fn timestamp_is_fresh(ts: u64, now: u64) -> (r: bool)
    ensures
        r == is_fresh(ts as int, now as int),
{
    ts >= now || now - ts <= FRESHNESS_WINDOW_SECS
}

} // verus!
