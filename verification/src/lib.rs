//! Cookie-session authentication core for a content-management backend.
//!
//! The library owns the session lifecycle: issuing a session on login,
//! resolving a bearer token to an identity with expiry enforcement and
//! lazy cleanup, tearing sessions down on logout, and gating requests
//! on a resolved identity. All state lives in a [`store::Store`], the
//! single source of truth for users and sessions.

use vstd::prelude::*;

pub mod clock;
pub mod config;
pub mod content;
pub mod flow;
pub mod gate;
pub mod laws;
pub mod password;
pub mod session;
pub mod slug;
pub mod store;
pub mod token;

verus! {

/// Number of days a session stays valid after creation.
pub const SESSION_DURATION_DAYS: i64 = 7;

/// Seconds in one day.
pub const SECONDS_PER_DAY: i64 = 86400;

/// Fixed session lifetime in seconds; a session's expiry is always its
/// creation instant plus this value, and is never extended.
pub const SESSION_DURATION_SECS: i64 = SESSION_DURATION_DAYS * SECONDS_PER_DAY;

} // verus!
