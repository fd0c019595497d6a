use session_auth::flow::{login, login_at, logout, me_at, AuthError, LoginRequest};
use session_auth::gate::{require_auth, require_auth_at};
use session_auth::password::hash_password;
use session_auth::session::{create_session, create_session_at, delete_session, get_user_by_session_at};
use session_auth::store::{Store, StoreError, User};
use session_auth::SESSION_DURATION_SECS;

fn store_with_user(id: u128, email: &str, password: &str, created_at: i64) -> Store {
    let mut store = Store::new();
    let hash = hash_password(password).expect("hashing must succeed");
    let user = User { id, email: email.to_string(), password_hash: hash, created_at };
    store.insert_user(user).expect("fresh user must insert");
    store
}

#[test]
fn create_then_resolve_yields_the_same_user() {
    let mut store = store_with_user(7, "a@example.com", "pw", 1_000);
    let now: i64 = 50_000;
    create_session_at(&mut store, 7, 99, now).expect("insert must succeed");
    let token = uuid::Uuid::from_u128(99).to_string();
    let resolved = get_user_by_session_at(&mut store, &token, now).expect("must resolve");
    assert_eq!(resolved.id, 7);
    assert_eq!(resolved.email, "a@example.com");
}

#[test]
fn resolve_just_before_expiry_still_succeeds() {
    let mut store = store_with_user(7, "a@example.com", "pw", 1_000);
    let now: i64 = 50_000;
    create_session_at(&mut store, 7, 99, now).expect("insert must succeed");
    let token = uuid::Uuid::from_u128(99).to_string();
    let r = get_user_by_session_at(&mut store, &token, now + SESSION_DURATION_SECS - 1);
    assert!(r.is_some());
}

#[test]
fn session_duration_is_seven_days_of_seconds() {
    assert_eq!(SESSION_DURATION_SECS, 7 * 86_400);
    assert_eq!(SESSION_DURATION_SECS, 604_800);
}

#[test]
fn expiry_is_creation_plus_fixed_duration() {
    let mut store = store_with_user(3, "b@example.com", "pw", 0);
    create_session_at(&mut store, 3, 42, 10_000).expect("insert must succeed");
    let row = store.get_session(42).expect("row must exist");
    assert_eq!(row.created_at, 10_000);
    assert_eq!(row.expires_at, 10_000 + 604_800);
    assert_eq!(row.user_id, 3);
    assert_eq!(row.id, 42);
}

#[test]
fn expired_session_resolves_to_nothing_and_row_is_purged() {
    // The session's expiry sits one second in the past at lookup time.
    let mut store = store_with_user(5, "c@example.com", "pw", 0);
    let lookup_at: i64 = 2_000_000;
    let created_at = lookup_at - SESSION_DURATION_SECS - 1;
    create_session_at(&mut store, 5, 77, created_at).expect("insert must succeed");
    assert_eq!(store.get_session(77).unwrap().expires_at, lookup_at - 1);
    let token = uuid::Uuid::from_u128(77).to_string();
    let r = get_user_by_session_at(&mut store, &token, lookup_at);
    assert!(r.is_none());
    assert!(!store.has_session(77), "cleanup must have fired");
}

#[test]
fn resolve_exactly_at_expiry_yields_nothing() {
    let mut store = store_with_user(5, "c@example.com", "pw", 0);
    let now: i64 = 1_000;
    create_session_at(&mut store, 5, 77, now).expect("insert must succeed");
    let token = uuid::Uuid::from_u128(77).to_string();
    assert!(get_user_by_session_at(&mut store, &token, now + SESSION_DURATION_SECS).is_none());
    assert!(!store.has_session(77));
}

#[test]
fn destroy_is_idempotent_and_never_errors() {
    let mut store = store_with_user(9, "d@example.com", "pw", 0);
    create_session_at(&mut store, 9, 11, 100).expect("insert must succeed");
    let token = uuid::Uuid::from_u128(11).to_string();
    assert!(delete_session(&mut store, &token).is_ok());
    assert!(!store.has_session(11));
    // A second teardown of the same token, and one of a never-issued
    // identifier, both succeed silently.
    assert!(delete_session(&mut store, &token).is_ok());
    let never_issued = uuid::Uuid::from_u128(123_456).to_string();
    assert!(delete_session(&mut store, &never_issued).is_ok());
    // A token that does not even parse is ignored as well.
    assert!(delete_session(&mut store, "not-a-token").is_ok());
}

#[test]
fn malformed_token_resolves_to_nothing_without_touching_state() {
    let mut store = store_with_user(9, "d@example.com", "pw", 0);
    create_session_at(&mut store, 9, 11, 100).expect("insert must succeed");
    assert!(get_user_by_session_at(&mut store, "definitely-not-an-identifier", 100).is_none());
    assert!(get_user_by_session_at(&mut store, "", 100).is_none());
    assert!(store.has_session(11), "no row may be touched");
}

#[test]
fn login_failures_are_byte_identical() {
    let mut store = store_with_user(1, "known@example.com", "right-password", 0);
    let unknown = login_at(&mut store, "nobody@example.com", "anything", 500, 1_000, false)
        .expect_err("unknown email must be rejected");
    let wrong = login_at(&mut store, "known@example.com", "wrong-password", 501, 1_000, false)
        .expect_err("wrong password must be rejected");
    assert_eq!(unknown, wrong);
    assert_eq!(unknown, AuthError::InvalidCredentials);
    assert_eq!(unknown.status_code(), wrong.status_code());
    assert_eq!(unknown.status_code(), 401);
    assert_eq!(unknown.message(), wrong.message());
    assert_eq!(unknown.message(), "invalid credentials");
    assert_eq!(store.get_session(500), None);
    assert_eq!(store.get_session(501), None);
}

#[test]
fn full_login_session_logout_scenario() {
    // Create user U with password "correct-horse".
    let mut store = store_with_user(21, "u@example.com", "correct-horse", 0);
    let now: i64 = 10_000;

    // Login with the right password: success, cookie set with the
    // mandatory attributes.
    let cookie = login_at(&mut store, "u@example.com", "correct-horse", 900, now, true)
        .expect("login must succeed");
    assert_eq!(cookie.name, "session_id");
    assert!(cookie.http_only);
    assert!(cookie.same_site_lax);
    assert_eq!(cookie.path, "/");
    assert_eq!(cookie.max_age_secs, SESSION_DURATION_SECS);
    assert!(cookie.secure, "secure must be set in production");

    // The cookie resolves back to U.
    let resolved = get_user_by_session_at(&mut store, &cookie.value, now).expect("must resolve");
    assert_eq!(resolved.id, 21);
    assert_eq!(resolved.email, "u@example.com");

    // Login with a wrong password: rejected with the 401 signal.
    let rejected = login_at(&mut store, "u@example.com", "wrong", 901, now, true)
        .expect_err("wrong password must be rejected");
    assert_eq!(rejected.status_code(), 401);

    // Logout tears the session down and orders the cookie discarded.
    let removal = logout(&mut store, Some(&cookie.value));
    assert_eq!(removal.name, "session_id");
    assert_eq!(removal.value, "");
    assert_eq!(removal.max_age_secs, 0);
    assert_eq!(removal.path, "/");

    // The old cookie no longer resolves.
    assert!(get_user_by_session_at(&mut store, &cookie.value, now).is_none());
}

#[test]
fn login_cookie_not_secure_outside_production() {
    let mut store = store_with_user(2, "e@example.com", "pw", 0);
    let cookie = login_at(&mut store, "e@example.com", "pw", 33, 1_000, false)
        .expect("login must succeed");
    assert!(!cookie.secure);
}

#[test]
fn login_with_clock_and_fresh_identifier() {
    let mut store = store_with_user(4, "f@example.com", "pw", 0);
    let req = LoginRequest { email: "f@example.com".to_string(), password: "pw".to_string() };
    let cookie = login(&mut store, &req, false).expect("login must succeed");
    let resolved = session_auth::session::get_user_by_session(&mut store, &cookie.value)
        .expect("freshly issued session must resolve");
    assert_eq!(resolved.id, 4);
    let bad = LoginRequest { email: "f@example.com".to_string(), password: "bad".to_string() };
    assert_eq!(
        login(&mut store, &bad, false).expect_err("must reject"),
        AuthError::InvalidCredentials
    );
}

#[test]
fn create_session_draws_a_resolvable_identifier() {
    let mut store = store_with_user(8, "g@example.com", "pw", 0);
    let sid = create_session(&mut store, 8).expect("creation must succeed");
    assert!(store.has_session(sid));
    let row = store.get_session(sid).unwrap();
    assert_eq!(row.expires_at, row.created_at + SESSION_DURATION_SECS);
    let token = row.id_as_str();
    assert_eq!(token.len(), 36);
    let resolved = get_user_by_session_at(&mut store, &token, row.created_at).expect("resolves");
    assert_eq!(resolved.id, 8);
}

#[test]
fn create_session_for_unknown_user_fails() {
    let mut store = Store::new();
    assert_eq!(create_session(&mut store, 1), Err(StoreError::ForeignKey));
    assert_eq!(create_session_at(&mut store, 1, 2, 0), Err(StoreError::ForeignKey));
}

#[test]
fn duplicate_session_identifier_is_refused() {
    let mut store = store_with_user(1, "h@example.com", "pw", 0);
    create_session_at(&mut store, 1, 5, 0).expect("first insert succeeds");
    assert_eq!(create_session_at(&mut store, 1, 5, 0), Err(StoreError::Duplicate));
}

#[test]
fn duplicate_user_identifier_or_email_is_refused() {
    let mut store = store_with_user(1, "i@example.com", "pw", 0);
    let same_id = User {
        id: 1,
        email: "other@example.com".to_string(),
        password_hash: "x".to_string(),
        created_at: 0,
    };
    assert_eq!(store.insert_user(same_id), Err(StoreError::Duplicate));
    let same_email = User {
        id: 2,
        email: "i@example.com".to_string(),
        password_hash: "x".to_string(),
        created_at: 0,
    };
    assert_eq!(store.insert_user(same_email), Err(StoreError::Duplicate));
}

#[test]
fn gate_rejects_uniformly() {
    let mut store = store_with_user(1, "j@example.com", "pw", 0);
    create_session_at(&mut store, 1, 6, 0).expect("insert succeeds");
    let token = uuid::Uuid::from_u128(6).to_string();

    // Absent cookie, malformed token, unknown session, expired session:
    // one and the same rejection.
    let absent = require_auth_at(&mut store, None, 0).expect_err("absent cookie");
    let malformed = require_auth_at(&mut store, Some("///"), 0).expect_err("malformed token");
    let unknown_token = uuid::Uuid::from_u128(999).to_string();
    let unknown = require_auth_at(&mut store, Some(&unknown_token), 0).expect_err("unknown");
    let expired =
        require_auth_at(&mut store, Some(&token), SESSION_DURATION_SECS).expect_err("expired");
    assert_eq!(absent, AuthError::Unauthenticated);
    assert_eq!(absent, malformed);
    assert_eq!(absent, unknown);
    assert_eq!(absent, expired);
    assert_eq!(absent.status_code(), 401);
    assert_eq!(absent.message(), "unauthorized");
}

#[test]
fn gate_attaches_the_resolved_identity() {
    let mut store = store_with_user(13, "k@example.com", "pw", 0);
    create_session_at(&mut store, 13, 8, 0).expect("insert succeeds");
    let token = uuid::Uuid::from_u128(8).to_string();
    let user = require_auth_at(&mut store, Some(&token), 10).expect("valid session passes");
    assert_eq!(user.id, 13);
    // Through the wall clock as well: issue a session at the current
    // instant and gate with it.
    let sid = create_session(&mut store, 13).expect("creation must succeed");
    let live_token = store.get_session(sid).unwrap().id_as_str();
    let user2 = require_auth(&mut store, Some(&live_token)).expect("valid session passes now too");
    assert_eq!(user2.email, "k@example.com");
}

#[test]
fn whoami_projects_identifier_and_email_only() {
    let mut store = store_with_user(14, "l@example.com", "pw", 0);
    create_session_at(&mut store, 14, 9, 0).expect("insert succeeds");
    let token = uuid::Uuid::from_u128(9).to_string();
    let identity = me_at(&mut store, Some(&token), 10).expect("valid session");
    assert_eq!(identity.user_id, uuid::Uuid::from_u128(14).to_string());
    assert_eq!(identity.email, "l@example.com");
    assert_eq!(
        me_at(&mut store, None, 10).expect_err("absent cookie"),
        AuthError::Unauthenticated
    );
}

#[test]
fn logout_without_cookie_still_orders_removal() {
    let mut store = Store::new();
    let removal = logout(&mut store, None);
    assert_eq!(removal.value, "");
    assert_eq!(removal.max_age_secs, 0);
}

#[test]
fn persistence_error_surfaces_as_500() {
    // A login that draws an already-taken session identifier is the one
    // store failure the flow can hit.
    let mut store = store_with_user(1, "m@example.com", "pw", 0);
    create_session_at(&mut store, 1, 700, 0).expect("insert succeeds");
    let e = login_at(&mut store, "m@example.com", "pw", 700, 0, false)
        .expect_err("taken identifier must fail");
    assert_eq!(e, AuthError::PersistenceError);
    assert_eq!(e.status_code(), 500);
    assert_eq!(e.message(), "internal server error");
}

#[test]
fn token_text_round_trips_through_resolution() {
    // If formatting or parsing handed its argument back unchanged, the
    // canonical text of an issued session could never resolve.
    let mut store = store_with_user(1, "n@example.com", "pw", 0);
    create_session_at(&mut store, 1, 0xDEAD_BEEF, 0).expect("insert succeeds");
    let row = store.get_session(0xDEAD_BEEF).unwrap();
    let token = row.id_as_str();
    assert_eq!(token, "00000000-0000-0000-0000-0000deadbeef");
    assert!(get_user_by_session_at(&mut store, &token, 0).is_some());
    // The raw identifier digits without hyphens also parse, as the
    // underlying parser accepts the simple form.
    assert!(get_user_by_session_at(&mut store, "000000000000000000000000deadbeef", 0).is_some());
}
