//! The request gate for protected routes: extracts the session token
//! handed over by the cookie layer, resolves it, and either yields the
//! identity to thread through the request or rejects before any handler
//! runs. Every rejection is the same unauthenticated signal.

use vstd::prelude::*;

use crate::clock::clock_now;
use crate::flow::AuthError;
use crate::session::{get_user_by_session_at, spec_resolve, spec_resolve_cleanup};
use crate::store::{Store, User};

verus! {

/// Gates a request at a fixed instant. An absent cookie, a token that
/// does not parse, an unknown session and an expired session all produce
/// exactly `Unauthenticated`; resolution performs lazy cleanup as usual.
pub fn require_auth_at(store: &mut Store, cookie_token: Option<&str>, now: i64) -> (r: Result<
    User,
    AuthError,
>)
    requires
        old(store).wf(),
    ensures
        final(store).wf(),
        final(store).users_seq() == old(store).users_seq(),
        r is Err ==> r == Err::<User, AuthError>(AuthError::Unauthenticated),
        final(store).sessions_map() == match cookie_token {
            None => old(store).sessions_map(),
            Some(t) => spec_resolve_cleanup(old(store).sessions_map(), t@, now),
        },
        match cookie_token {
            None => r == Err::<User, AuthError>(AuthError::Unauthenticated),
            Some(t) => match spec_resolve(
                old(store).users_seq(),
                old(store).sessions_map(),
                t@,
                now,
            ) {
                None => r == Err::<User, AuthError>(AuthError::Unauthenticated),
                Some(u) => r == Ok::<User, AuthError>(u),
            },
        },
{
    let token = match cookie_token {
        None => {
            return Err(AuthError::Unauthenticated);
        },
        Some(t) => t,
    };
    match get_user_by_session_at(store, token, now) {
        None => Err(AuthError::Unauthenticated),
        Some(u) => Ok(u),
    }
}

/// Gates a request at the current instant. Reads the clock once;
/// everything else is exactly [`require_auth_at`].
pub fn require_auth(store: &mut Store, cookie_token: Option<&str>) -> (r: Result<User, AuthError>)
    requires
        old(store).wf(),
    ensures
        final(store).wf(),
        final(store).users_seq() == old(store).users_seq(),
        r is Err ==> r == Err::<User, AuthError>(AuthError::Unauthenticated),
        cookie_token is None ==> r == Err::<User, AuthError>(AuthError::Unauthenticated)
            && final(store).sessions_map() == old(store).sessions_map(),
        cookie_token matches Some(t) ==> exists|now: i64|
            #![trigger spec_resolve_cleanup(old(store).sessions_map(), t@, now)]
            {
                &&& final(store).sessions_map() == spec_resolve_cleanup(
                    old(store).sessions_map(),
                    t@,
                    now,
                )
                &&& match spec_resolve(
                    old(store).users_seq(),
                    old(store).sessions_map(),
                    t@,
                    now,
                ) {
                    None => r == Err::<User, AuthError>(AuthError::Unauthenticated),
                    Some(u) => r == Ok::<User, AuthError>(u),
                }
            },
{
    let now = clock_now();
    let r = require_auth_at(store, cookie_token, now);
    proof {
        if let Some(t) = cookie_token {
            assert({
                &&& store.sessions_map() == spec_resolve_cleanup(
                    old(store).sessions_map(),
                    t@,
                    now,
                )
                &&& match spec_resolve(
                    old(store).users_seq(),
                    old(store).sessions_map(),
                    t@,
                    now,
                ) {
                    None => r == Err::<User, AuthError>(AuthError::Unauthenticated),
                    Some(u) => r == Ok::<User, AuthError>(u),
                }
            });
        }
    }
    r
}

} // verus!
