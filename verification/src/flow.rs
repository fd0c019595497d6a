//! The login/logout flow and identity introspection: credential
//! verification, session creation and teardown, and the cookie
//! directives the HTTP layer must apply verbatim.

use vstd::prelude::*;

use crate::clock::clock_now;
use crate::password::verify_password;
use crate::session::{
    create_session_at, get_user_by_session_at, spec_create_session, spec_destroy, spec_resolve,
    spec_resolve_cleanup,
};
use crate::store::{spec_user_by_email, user_email_index, Store, User};
use crate::token::{format_token, fresh_token, spec_parse_token, spec_token_text};
use crate::password::{spec_hash_accepted, spec_password_matches};
use crate::SESSION_DURATION_SECS;

verus! {

/// How an operation of this subsystem fails outward. Every failure is
/// converted to one of these before leaving the subsystem.
#[derive(Clone, Copy, Debug, PartialEq, Eq, Structural)]
pub enum AuthError {
    /// No cookie, malformed token, unknown session, or expired session.
    /// Deliberately a single signal, leaking nothing to probing clients.
    Unauthenticated,
    /// Unknown email or password mismatch at login, deliberately
    /// indistinguishable from each other.
    InvalidCredentials,
    /// A failure of the backing store. Surfaced without internal detail.
    PersistenceError,
}

impl AuthError {
    /// The HTTP status this failure surfaces as.
    pub fn status_code(&self) -> (c: u16)
        ensures
            c == match *self {
                AuthError::Unauthenticated => 401u16,
                AuthError::InvalidCredentials => 401u16,
                AuthError::PersistenceError => 500u16,
            },
    {
        match *self {
            AuthError::Unauthenticated => 401,
            AuthError::InvalidCredentials => 401,
            AuthError::PersistenceError => 500,
        }
    }

    /// The uniform client-facing message for this failure; equal errors
    /// produce byte-identical bodies.
    pub fn message(&self) -> (m: &'static str)
        ensures
            *self == AuthError::Unauthenticated ==> m@ == "unauthorized"@,
            *self == AuthError::InvalidCredentials ==> m@ == "invalid credentials"@,
            *self == AuthError::PersistenceError ==> m@ == "internal server error"@,
    {
        match *self {
            AuthError::Unauthenticated => "unauthorized",
            AuthError::InvalidCredentials => "invalid credentials",
            AuthError::PersistenceError => "internal server error",
        }
    }
}

/// A login request body.
#[derive(Debug)]
pub struct LoginRequest {
    pub email: String,
    pub password: String,
}

/// A cookie the HTTP layer must apply exactly as stated: the one carrier
/// of the session token.
#[derive(Debug)]
pub struct CookieDirective {
    /// Cookie name; always the fixed session cookie name.
    pub name: String,
    /// Cookie value: the canonical token text, or empty on removal.
    pub value: String,
    /// Lifetime in seconds; zero demands immediate discard.
    pub max_age_secs: i64,
    /// Inaccessible to client-side scripts.
    pub http_only: bool,
    /// Sent only on same-site and top-level navigations.
    pub same_site_lax: bool,
    /// Cookie path.
    pub path: String,
    /// Only ever sent over TLS; set whenever the deployment is
    /// production.
    pub secure: bool,
}

/// Mathematical image of a cookie directive.
pub struct CookieModel {
    pub name: Seq<char>,
    pub value: Seq<char>,
    pub max_age_secs: i64,
    pub http_only: bool,
    pub same_site_lax: bool,
    pub path: Seq<char>,
    pub secure: bool,
}

impl View for CookieDirective {
    type V = CookieModel;

    open spec fn view(&self) -> CookieModel {
        CookieModel {
            name: self.name@,
            value: self.value@,
            max_age_secs: self.max_age_secs,
            http_only: self.http_only,
            same_site_lax: self.same_site_lax,
            path: self.path@,
            secure: self.secure,
        }
    }
}

/// The cookie issued on successful login: token as value, session
/// lifetime as max-age, HTTP-only, lax same-site, root path, and secure
/// exactly in production. These attributes are mandatory.
pub open spec fn spec_login_cookie(token: Seq<char>, secure: bool) -> CookieModel {
    CookieModel {
        name: "session_id"@,
        value: token,
        max_age_secs: SESSION_DURATION_SECS,
        http_only: true,
        same_site_lax: true,
        path: "/"@,
        secure,
    }
}

/// The cookie issued on logout: empty value and zero max-age, so clients
/// discard theirs whether or not a server-side session existed.
pub open spec fn spec_removal_cookie() -> CookieModel {
    CookieModel {
        name: "session_id"@,
        value: Seq::<char>::empty(),
        max_age_secs: 0,
        http_only: false,
        same_site_lax: false,
        path: "/"@,
        secure: false,
    }
}

/// Builds the login cookie for a token text.
pub fn make_login_cookie(token: String, is_production: bool) -> (c: CookieDirective)
    ensures
        c@ == spec_login_cookie(token@, is_production),
{
    CookieDirective {
        name: "session_id".to_owned(),
        value: token,
        max_age_secs: SESSION_DURATION_SECS,
        http_only: true,
        same_site_lax: true,
        path: "/".to_owned(),
        secure: is_production,
    }
}

/// Builds the removal cookie.
pub fn make_removal_cookie() -> (c: CookieDirective)
    ensures
        c@ == spec_removal_cookie(),
{
    CookieDirective {
        name: "session_id".to_owned(),
        value: String::new(),
        max_age_secs: 0,
        http_only: false,
        same_site_lax: false,
        path: "/".to_owned(),
        secure: false,
    }
}

/// A result of login, at the level of the mathematical model.
pub open spec fn spec_cookie_result(r: Result<CookieDirective, AuthError>) -> Result<
    CookieModel,
    AuthError,
> {
    match r {
        Ok(c) => Ok(c@),
        Err(e) => Err(e),
    }
}

/// What login does, as one function of the pre-state and the inputs: the
/// sessions relation afterwards and the outcome. An unknown email, a
/// stored hash the verifier cannot use, and a mismatched password all
/// yield the same rejection; a taken session identifier is a store
/// failure; otherwise the session is issued and the cookie stated.
pub open spec fn spec_login(
    users: Seq<User>,
    sessions: Map<u128, crate::store::Session>,
    email: Seq<char>,
    password: Seq<char>,
    sid: u128,
    now: i64,
    is_production: bool,
) -> (Map<u128, crate::store::Session>, Result<CookieModel, AuthError>) {
    match spec_user_by_email(users, email) {
        None => (sessions, Err(AuthError::InvalidCredentials)),
        Some(u) => if !spec_hash_accepted(u.password_hash@) || !spec_password_matches(
            password,
            u.password_hash@,
        ) {
            (sessions, Err(AuthError::InvalidCredentials))
        } else if sessions.contains_key(sid) {
            (sessions, Err(AuthError::PersistenceError))
        } else {
            (
                spec_create_session(sessions, u.id, sid, now),
                Ok(spec_login_cookie(spec_token_text(sid), is_production)),
            )
        },
    }
}

/// Login at a fixed instant with a fixed fresh identifier: looks the
/// user up by email, verifies the password, issues the session and
/// states the cookie. Behaves exactly as [`spec_login`] says.
pub fn login_at(
    store: &mut Store,
    email: &str,
    password: &str,
    session_id: u128,
    now: i64,
    is_production: bool,
) -> (r: Result<CookieDirective, AuthError>)
    requires
        old(store).wf(),
        now <= i64::MAX - SESSION_DURATION_SECS,
    ensures
        final(store).wf(),
        final(store).users_seq() == old(store).users_seq(),
        (final(store).sessions_map(), spec_cookie_result(r)) == spec_login(
            old(store).users_seq(),
            old(store).sessions_map(),
            email@,
            password@,
            session_id,
            now,
            is_production,
        ),
{
    let user = match store.user_by_email(email) {
        None => {
            return Err(AuthError::InvalidCredentials);
        },
        Some(u) => u,
    };
    let matched = match verify_password(password, user.password_hash.as_str()) {
        Ok(b) => b,
        Err(_) => {
            return Err(AuthError::InvalidCredentials);
        },
    };
    if !matched {
        return Err(AuthError::InvalidCredentials);
    }
    proof {
        let k = user_email_index(old(store).users_seq(), email@);
        assert(old(store).users_seq()[k] == user);
        assert(crate::store::has_user_id(old(store).users_seq(), user.id));
    }
    match create_session_at(store, user.id, session_id, now) {
        Ok(()) => {
            let token = format_token(session_id);
            Ok(make_login_cookie(token, is_production))
        },
        Err(_) => Err(AuthError::PersistenceError),
    }
}

/// Login at the current instant with a freshly drawn identifier. On
/// success the returned cookie carries the canonical text of the new
/// session's identifier and the mandatory attributes; on rejection or
/// failure the store is unchanged.
pub fn login(store: &mut Store, req: &LoginRequest, is_production: bool) -> (r: Result<
    CookieDirective,
    AuthError,
>)
    requires
        old(store).wf(),
    ensures
        final(store).wf(),
        final(store).users_seq() == old(store).users_seq(),
        spec_user_by_email(old(store).users_seq(), req.email@) is None ==> r == Err::<
            CookieDirective,
            AuthError,
        >(AuthError::InvalidCredentials),
        spec_user_by_email(old(store).users_seq(), req.email@) matches Some(u) && (
        !spec_hash_accepted(u.password_hash@) || !spec_password_matches(
            req.password@,
            u.password_hash@,
        )) ==> r == Err::<CookieDirective, AuthError>(AuthError::InvalidCredentials),
        spec_user_by_email(old(store).users_seq(), req.email@) matches Some(u)
            && spec_hash_accepted(u.password_hash@) && spec_password_matches(
            req.password@,
            u.password_hash@,
        ) ==> r is Ok || r == Err::<CookieDirective, AuthError>(AuthError::PersistenceError),
        r is Err ==> final(store).sessions_map() == old(store).sessions_map(),
        r matches Ok(c) ==> spec_user_by_email(old(store).users_seq(), req.email@) matches Some(u)
            && spec_hash_accepted(u.password_hash@) && spec_password_matches(
            req.password@,
            u.password_hash@,
        ) && (exists|sid: u128, now: i64|
            {
                &&& spec_parse_token(c@.value) == Some(sid)
                &&& c@ == spec_login_cookie(spec_token_text(sid), is_production)
                &&& !old(store).sessions_map().contains_key(sid)
                &&& final(store).sessions_map() == spec_create_session(
                    old(store).sessions_map(),
                    u.id,
                    sid,
                    now,
                )
            }),
{
    let user = match store.user_by_email(req.email.as_str()) {
        None => {
            return Err(AuthError::InvalidCredentials);
        },
        Some(u) => u,
    };
    let matched = match verify_password(req.password.as_str(), user.password_hash.as_str()) {
        Ok(b) => b,
        Err(_) => {
            return Err(AuthError::InvalidCredentials);
        },
    };
    if !matched {
        return Err(AuthError::InvalidCredentials);
    }
    let sid = fresh_token();
    let now = clock_now();
    if now > i64::MAX - SESSION_DURATION_SECS {
        return Err(AuthError::PersistenceError);
    }
    proof {
        let k = user_email_index(old(store).users_seq(), req.email@);
        assert(old(store).users_seq()[k] == user);
        assert(crate::store::has_user_id(old(store).users_seq(), user.id));
    }
    match create_session_at(store, user.id, sid, now) {
        Ok(()) => {
            let token = format_token(sid);
            let c = make_login_cookie(token, is_production);
            proof {
                assert(spec_parse_token(c@.value) == Some(sid) && c@ == spec_login_cookie(
                    spec_token_text(sid),
                    is_production,
                ) && !old(store).sessions_map().contains_key(sid) && store.sessions_map()
                    == spec_create_session(old(store).sessions_map(), user.id, sid, now));
            }
            Ok(c)
        },
        Err(_) => Err(AuthError::PersistenceError),
    }
}

/// The public projection of an authenticated identity: identifier text
/// and email, never the password hash.
#[derive(Debug)]
pub struct PublicIdentity {
    pub user_id: String,
    pub email: String,
}

/// Identity introspection at a fixed instant: resolves the session
/// cookie the same way the middleware does, lazy cleanup included, and
/// returns the identity's public projection. An absent cookie or a
/// failed resolution is the uniform unauthenticated signal.
pub fn me_at(store: &mut Store, cookie_token: Option<&str>, now: i64) -> (r: Result<
    PublicIdentity,
    AuthError,
>)
    requires
        old(store).wf(),
    ensures
        final(store).wf(),
        final(store).users_seq() == old(store).users_seq(),
        final(store).sessions_map() == match cookie_token {
            None => old(store).sessions_map(),
            Some(t) => spec_resolve_cleanup(old(store).sessions_map(), t@, now),
        },
        match cookie_token {
            None => r == Err::<PublicIdentity, AuthError>(AuthError::Unauthenticated),
            Some(t) => match spec_resolve(
                old(store).users_seq(),
                old(store).sessions_map(),
                t@,
                now,
            ) {
                None => r == Err::<PublicIdentity, AuthError>(AuthError::Unauthenticated),
                Some(u) => r matches Ok(pi) && pi.user_id@ == spec_token_text(u.id) && pi.email@
                    == u.email@,
            },
        },
{
    let token = match cookie_token {
        None => {
            return Err(AuthError::Unauthenticated);
        },
        Some(t) => t,
    };
    match get_user_by_session_at(store, token, now) {
        None => Err(AuthError::Unauthenticated),
        Some(u) => Ok(
            PublicIdentity { user_id: format_token(u.id), email: u.email },
        ),
    }
}

/// Identity introspection at the current instant. Reads the clock once;
/// everything else is exactly [`me_at`].
pub fn me(store: &mut Store, cookie_token: Option<&str>) -> (r: Result<PublicIdentity, AuthError>)
    requires
        old(store).wf(),
    ensures
        final(store).wf(),
        final(store).users_seq() == old(store).users_seq(),
        cookie_token is None ==> r == Err::<PublicIdentity, AuthError>(AuthError::Unauthenticated)
            && final(store).sessions_map() == old(store).sessions_map(),
        cookie_token matches Some(t) ==> exists|now: i64|
            #![trigger spec_resolve_cleanup(old(store).sessions_map(), t@, now)]
            {
                &&& final(store).sessions_map() == spec_resolve_cleanup(
                    old(store).sessions_map(),
                    t@,
                    now,
                )
                &&& match spec_resolve(
                    old(store).users_seq(),
                    old(store).sessions_map(),
                    t@,
                    now,
                ) {
                    None => r == Err::<PublicIdentity, AuthError>(AuthError::Unauthenticated),
                    Some(u) => r matches Ok(pi) && pi.user_id@ == spec_token_text(u.id)
                        && pi.email@ == u.email@,
                }
            },
{
    let now = clock_now();
    let r = me_at(store, cookie_token, now);
    proof {
        if let Some(t) = cookie_token {
            assert({
                &&& store.sessions_map() == spec_resolve_cleanup(
                    old(store).sessions_map(),
                    t@,
                    now,
                )
                &&& match spec_resolve(
                    old(store).users_seq(),
                    old(store).sessions_map(),
                    t@,
                    now,
                ) {
                    None => r == Err::<PublicIdentity, AuthError>(AuthError::Unauthenticated),
                    Some(u) => r matches Ok(pi) && pi.user_id@ == spec_token_text(u.id)
                        && pi.email@ == u.email@,
                }
            });
        }
    }
    r
}

/// Logout: tears down whatever session the cookie denotes (ignoring
/// absence entirely) and unconditionally states the removal cookie.
/// Never fails outward.
pub fn logout(store: &mut Store, cookie_token: Option<&str>) -> (c: CookieDirective)
    requires
        old(store).wf(),
    ensures
        final(store).wf(),
        final(store).users_seq() == old(store).users_seq(),
        final(store).sessions_map() == match cookie_token {
            None => old(store).sessions_map(),
            Some(t) => spec_destroy(old(store).sessions_map(), t@),
        },
        c@ == spec_removal_cookie(),
{
    if let Some(t) = cookie_token {
        let _ = crate::session::delete_session(store, t);
    }
    make_removal_cookie()
}

} // verus!
