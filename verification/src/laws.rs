//! The laws of the session subsystem, stated over the same spec
//! functions the executable operations are verified against.

use vstd::prelude::*;

use crate::flow::{spec_login, AuthError, CookieModel};
use crate::session::{spec_create_session, spec_destroy, spec_resolve, spec_resolve_cleanup};
use crate::store::{has_user_id, spec_user_by_email, spec_user_by_id, Session, User};
use crate::token::spec_parse_token;
use crate::SESSION_DURATION_SECS;

verus! {

/// Law: a session issued for a user and resolved through its own token,
/// at any instant before the fixed duration has elapsed, yields exactly
/// that user. The token may be any text that parses back to the new
/// session's identifier; the canonical text handed out at creation does.
pub proof fn lemma_create_then_resolve(
    users: Seq<User>,
    sessions: Map<u128, Session>,
    user_id: u128,
    sid: u128,
    token: Seq<char>,
    now: i64,
    later: i64,
)
    requires
        spec_parse_token(token) == Some(sid),
        !sessions.contains_key(sid),
        has_user_id(users, user_id),
        now <= i64::MAX - SESSION_DURATION_SECS,
        now <= later < now + SESSION_DURATION_SECS,
    ensures
        spec_resolve(users, spec_create_session(sessions, user_id, sid, now), token, later)
            == spec_user_by_id(users, user_id),
        spec_resolve(users, spec_create_session(sessions, user_id, sid, now), token, later)
            is Some,
{
}

/// Law: once a session's expiry instant has been reached — the fixed
/// duration after its creation, by construction — resolving its token
/// yields no identity, and the resolution itself purges the row, so a
/// direct existence check afterwards finds it gone.
pub proof fn lemma_expired_resolve_purges(
    users: Seq<User>,
    sessions: Map<u128, Session>,
    sid: u128,
    token: Seq<char>,
    now: i64,
)
    requires
        spec_parse_token(token) == Some(sid),
        sessions.contains_key(sid),
        now >= sessions[sid].expires_at,
    ensures
        spec_resolve(users, sessions, token, now) is None,
        !spec_resolve_cleanup(sessions, token, now).contains_key(sid),
{
}

/// Law: teardown is idempotent — destroying the same token twice leaves
/// exactly the state of destroying it once. (That teardown never errors
/// is part of `delete_session`'s own contract.)
pub proof fn lemma_destroy_idempotent(sessions: Map<u128, Session>, token: Seq<char>)
    ensures
        spec_destroy(spec_destroy(sessions, token), token) == spec_destroy(sessions, token),
{
    match spec_parse_token(token) {
        None => {},
        Some(sid) => {
            assert(sessions.remove(sid).remove(sid) =~= sessions.remove(sid));
        },
    }
}

/// Law: destroying a token that denotes no session — never issued, or
/// already gone — changes nothing.
pub proof fn lemma_destroy_absent_is_noop(sessions: Map<u128, Session>, token: Seq<char>)
    requires
        match spec_parse_token(token) {
            None => true,
            Some(sid) => !sessions.contains_key(sid),
        },
    ensures
        spec_destroy(sessions, token) == sessions,
{
    match spec_parse_token(token) {
        None => {},
        Some(sid) => {
            assert(sessions.remove(sid) =~= sessions);
        },
    }
}

/// Law: a token that does not parse as a 128-bit identifier resolves to
/// no identity and leaves the sessions relation untouched; resolution
/// returns before any session is even looked up.
pub proof fn lemma_malformed_token_resolves_to_nothing(
    users: Seq<User>,
    sessions: Map<u128, Session>,
    token: Seq<char>,
    now: i64,
)
    requires
        spec_parse_token(token) is None,
    ensures
        spec_resolve(users, sessions, token, now) is None,
        spec_resolve_cleanup(sessions, token, now) == sessions,
{
}

/// Law: login with an unknown email and login with a known email whose
/// password does not match produce exactly the same outcome — the same
/// rejection, with the sessions relation unchanged — whatever instants
/// and candidate identifiers the two attempts drew. The two failures
/// cannot be told apart.
pub proof fn lemma_login_rejections_indistinguishable(
    users: Seq<User>,
    sessions: Map<u128, Session>,
    email_unknown: Seq<char>,
    password_a: Seq<char>,
    email_known: Seq<char>,
    password_b: Seq<char>,
    sid_a: u128,
    sid_b: u128,
    now_a: i64,
    now_b: i64,
    is_production: bool,
)
    requires
        spec_user_by_email(users, email_unknown) is None,
        spec_user_by_email(users, email_known) matches Some(u)
            && !crate::password::spec_password_matches(password_b, u.password_hash@),
    ensures
        spec_login(users, sessions, email_unknown, password_a, sid_a, now_a, is_production)
            == spec_login(users, sessions, email_known, password_b, sid_b, now_b, is_production),
        spec_login(
            users,
            sessions,
            email_unknown,
            password_a,
            sid_a,
            now_a,
            is_production,
        ).0 == sessions,
        spec_login(
            users,
            sessions,
            email_unknown,
            password_a,
            sid_a,
            now_a,
            is_production,
        ).1 == Err::<CookieModel, AuthError>(AuthError::InvalidCredentials),
{
}

/// Law: after logout tears down the session a token denotes, resolving
/// that same token — at any instant whatever — yields no identity.
pub proof fn lemma_logout_then_resolve(
    users: Seq<User>,
    sessions: Map<u128, Session>,
    token: Seq<char>,
    now: i64,
)
    ensures
        spec_resolve(users, spec_destroy(sessions, token), token, now) is None,
{
    match spec_parse_token(token) {
        None => {},
        Some(sid) => {
            assert(!sessions.remove(sid).contains_key(sid));
        },
    }
}

} // verus!
