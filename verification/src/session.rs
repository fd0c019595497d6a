//! The session store operations: issue a session, resolve a bearer token
//! with expiry enforcement and lazy cleanup, and tear a session down.
//!
//! Each operation has a deterministic core (`..._at`) that takes the
//! current instant as an argument, and a front that draws the clock and
//! the fresh identifier itself.

use vstd::prelude::*;

use crate::clock::clock_now;
use crate::store::{spec_joined_lookup, Session, Store, StoreError, User};
use crate::token::{fresh_token, parse_token, spec_parse_token};
use crate::SESSION_DURATION_SECS;

verus! {

/// The sessions relation after issuing session `sid` for `user_id` at
/// instant `now`: expiry is creation plus the fixed duration.
pub open spec fn spec_create_session(
    sessions: Map<u128, Session>,
    user_id: u128,
    sid: u128,
    now: i64,
) -> Map<u128, Session> {
    sessions.insert(
        sid,
        Session {
            id: sid,
            user_id,
            expires_at: (now + SESSION_DURATION_SECS) as i64,
            created_at: now,
        },
    )
}

/// What resolving `token` at instant `now` yields: the owning user of the
/// denoted session, provided the token parses, the session exists and it
/// has not expired.
pub open spec fn spec_resolve(
    users: Seq<User>,
    sessions: Map<u128, Session>,
    token: Seq<char>,
    now: i64,
) -> Option<User> {
    match spec_parse_token(token) {
        None => None,
        Some(sid) => spec_joined_lookup(users, sessions, sid, now),
    }
}

/// The sessions relation after resolving `token` at `now`: the denoted
/// row is purged exactly when it exists and has expired (lazy cleanup);
/// nothing else changes.
pub open spec fn spec_resolve_cleanup(
    sessions: Map<u128, Session>,
    token: Seq<char>,
    now: i64,
) -> Map<u128, Session> {
    match spec_parse_token(token) {
        None => sessions,
        Some(sid) => if sessions.contains_key(sid) && sessions[sid].expires_at <= now {
            sessions.remove(sid)
        } else {
            sessions
        },
    }
}

/// The sessions relation after tearing down `token`: the denoted row is
/// gone; a token that does not parse, or denotes no row, changes nothing.
pub open spec fn spec_destroy(
    sessions: Map<u128, Session>,
    token: Seq<char>,
) -> Map<u128, Session> {
    match spec_parse_token(token) {
        None => sessions,
        Some(sid) => sessions.remove(sid),
    }
}

/// Issues the session `session_id` for `user_id` at instant `now`. The
/// new row expires exactly the fixed duration after `now`. Refused when
/// the identifier is already taken or the user does not exist; the store
/// is unchanged on refusal.
pub fn create_session_at(
    store: &mut Store,
    user_id: u128,
    session_id: u128,
    now: i64,
) -> (r: Result<(), StoreError>)
    requires
        old(store).wf(),
        now <= i64::MAX - SESSION_DURATION_SECS,
    ensures
        final(store).wf(),
        final(store).users_seq() == old(store).users_seq(),
        r is Ok <==> !old(store).sessions_map().contains_key(session_id)
            && crate::store::has_user_id(old(store).users_seq(), user_id),
        r is Ok ==> final(store).sessions_map() == spec_create_session(
            old(store).sessions_map(),
            user_id,
            session_id,
            now,
        ),
        r is Err ==> final(store).sessions_map() == old(store).sessions_map(),
        old(store).sessions_map().contains_key(session_id) ==> r == Err::<(), StoreError>(
            StoreError::Duplicate,
        ),
        !old(store).sessions_map().contains_key(session_id) && !crate::store::has_user_id(
            old(store).users_seq(),
            user_id,
        ) ==> r == Err::<(), StoreError>(StoreError::ForeignKey),
{
    let row = Session {
        id: session_id,
        user_id,
        expires_at: now + SESSION_DURATION_SECS,
        created_at: now,
    };
    store.insert_session(row)
}

/// Issues a session for `user_id`: draws a fresh random identifier and
/// the current instant, then persists the row. Returns the identifier,
/// which doubles as the bearer token. The caller must not assume a
/// session exists after a failure.
pub fn create_session(store: &mut Store, user_id: u128) -> (r: Result<u128, StoreError>)
    requires
        old(store).wf(),
    ensures
        final(store).wf(),
        final(store).users_seq() == old(store).users_seq(),
        r matches Ok(sid) ==> {
            &&& !old(store).sessions_map().contains_key(sid)
            &&& crate::store::has_user_id(old(store).users_seq(), user_id)
            &&& final(store).sessions_map() == spec_create_session(
                old(store).sessions_map(),
                user_id,
                sid,
                final(store).sessions_map()[sid].created_at,
            )
            &&& final(store).sessions_map()[sid].user_id == user_id
            &&& final(store).sessions_map()[sid].expires_at == final(store).sessions_map()[sid].created_at
                + SESSION_DURATION_SECS
        },
        r is Err ==> final(store).sessions_map() == old(store).sessions_map(),
        !crate::store::has_user_id(old(store).users_seq(), user_id) ==> r is Err,
{
    let sid = fresh_token();
    let now = clock_now();
    if now > i64::MAX - SESSION_DURATION_SECS {
        return Err(StoreError::Unavailable);
    }
    match create_session_at(store, user_id, sid, now) {
        Ok(()) => Ok(sid),
        Err(e) => Err(e),
    }
}

/// Resolves a bearer token at instant `now`: parses it, performs the
/// joined lookup requiring the session not to have expired, and lazily
/// purges the row when the lookup observed it as expired. A token that
/// does not parse yields no identity and touches nothing.
pub fn get_user_by_session_at(store: &mut Store, token: &str, now: i64) -> (r: Option<User>)
    requires
        old(store).wf(),
    ensures
        final(store).wf(),
        final(store).users_seq() == old(store).users_seq(),
        r == spec_resolve(old(store).users_seq(), old(store).sessions_map(), token@, now),
        final(store).sessions_map() == spec_resolve_cleanup(
            old(store).sessions_map(),
            token@,
            now,
        ),
{
    match parse_token(token) {
        None => None,
        Some(sid) => {
            match store.select_user_by_session(sid, now) {
                Some(u) => Some(u),
                None => {
                    store.delete_session_if_expired(sid, now);
                    None
                },
            }
        },
    }
}

/// Resolves a bearer token at the current instant. Reads the clock once;
/// everything else is exactly `get_user_by_session_at`.
pub fn get_user_by_session(store: &mut Store, token: &str) -> (r: Option<User>)
    requires
        old(store).wf(),
    ensures
        final(store).wf(),
        final(store).users_seq() == old(store).users_seq(),
        exists|now: i64|
            r == spec_resolve(
                old(store).users_seq(),
                old(store).sessions_map(),
                token@,
                now,
            ) && final(store).sessions_map() == spec_resolve_cleanup(
                old(store).sessions_map(),
                token@,
                now,
            ),
        spec_parse_token(token@) is None ==> r is None && final(store).sessions_map() == old(
            store,
        ).sessions_map(),
{
    let now = clock_now();
    let r = get_user_by_session_at(store, token, now);
    proof {
        assert(r == spec_resolve(old(store).users_seq(), old(store).sessions_map(), token@, now)
            && store.sessions_map() == spec_resolve_cleanup(
            old(store).sessions_map(),
            token@,
            now,
        ));
    }
    r
}

/// Tears down the session a bearer token denotes. Deleting an absent or
/// never-issued session, or passing a token that does not parse, is a
/// silent no-op: teardown never errors and is idempotent.
pub fn delete_session(store: &mut Store, token: &str) -> (r: Result<(), StoreError>)
    requires
        old(store).wf(),
    ensures
        final(store).wf(),
        final(store).users_seq() == old(store).users_seq(),
        final(store).sessions_map() == spec_destroy(old(store).sessions_map(), token@),
        r is Ok,
{
    if let Some(sid) = parse_token(token) {
        store.delete_session_row(sid);
    }
    Ok(())
}

} // verus!
