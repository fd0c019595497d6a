//! The relational state behind the session subsystem: a `users` relation
//! and a `sessions` relation, offering exactly the query shapes the
//! authentication core needs. The store exclusively owns all mutation of
//! session rows.

use std::collections::HashMap;
use vstd::prelude::*;

use crate::token::{format_token, spec_token_text};

verus! {

broadcast use vstd::std_specs::hash::group_hash_axioms;

/// An identity record. The store owns it; the auth core only reads it.
#[derive(Debug)]
pub struct User {
    /// Unique 128-bit identifier.
    pub id: u128,
    /// Unique email, stored case-sensitively.
    pub email: String,
    /// Opaque adaptive password hash; never serialized outward.
    pub password_hash: String,
    /// Creation instant, seconds since the Unix epoch.
    pub created_at: i64,
}

/// Mathematical image of a stored user, with text fields as sequences.
pub struct UserModel {
    pub email: Seq<char>,
    pub password_hash: Seq<char>,
    pub created_at: i64,
}

impl View for User {
    type V = UserModel;

    open spec fn view(&self) -> UserModel {
        UserModel {
            email: self.email@,
            password_hash: self.password_hash@,
            created_at: self.created_at,
        }
    }
}

impl User {
    /// A field-for-field copy, equal to the value it was taken from.
    pub fn duplicate(&self) -> (r: User)
        ensures
            r == *self,
    {
        User {
            id: self.id,
            email: self.email.clone(),
            password_hash: self.password_hash.clone(),
            created_at: self.created_at,
        }
    }
}

/// A proof-of-authentication record. The session identifier doubles as
/// the bearer token.
#[derive(Clone, Copy, Debug, PartialEq, Eq, Structural)]
pub struct Session {
    /// Unique 128-bit identifier, used verbatim as the bearer token.
    pub id: u128,
    /// Owning user's identifier.
    pub user_id: u128,
    /// Absolute expiry instant, seconds since the Unix epoch.
    pub expires_at: i64,
    /// Creation instant, seconds since the Unix epoch.
    pub created_at: i64,
}

impl Session {
    /// The canonical text of this session's identifier, as carried by the
    /// session cookie.
    pub fn id_as_str(&self) -> (r: String)
        ensures
            r@ == spec_token_text(self.id),
    {
        format_token(self.id)
    }
}

/// Why a write to the store was refused.
#[derive(Clone, Copy, Debug, PartialEq, Eq, Structural)]
pub enum StoreError {
    /// A row with the same primary key (or unique email) already exists.
    Duplicate,
    /// The owning user of a session row does not exist.
    ForeignKey,
    /// The backing state could not accept the write.
    Unavailable,
}

/// True when some user in `users` carries the identifier `uid`.
pub open spec fn has_user_id(users: Seq<User>, uid: u128) -> bool {
    exists|i: int| 0 <= i < users.len() && (#[trigger] users[i]).id == uid
}

/// True when some user in `users` carries exactly the email `email`.
pub open spec fn has_user_email(users: Seq<User>, email: Seq<char>) -> bool {
    exists|i: int| 0 <= i < users.len() && (#[trigger] users[i]).email@ == email
}

/// The position of the user carrying `uid`, meaningful under `has_user_id`.
pub open spec fn user_id_index(users: Seq<User>, uid: u128) -> int {
    choose|i: int| 0 <= i < users.len() && (#[trigger] users[i]).id == uid
}

/// The position of the user carrying `email`, meaningful under `has_user_email`.
pub open spec fn user_email_index(users: Seq<User>, email: Seq<char>) -> int {
    choose|i: int| 0 <= i < users.len() && (#[trigger] users[i]).email@ == email
}

/// The user with identifier `uid`, if any: the `users` primary-key lookup.
pub open spec fn spec_user_by_id(users: Seq<User>, uid: u128) -> Option<User> {
    if has_user_id(users, uid) {
        Some(users[user_id_index(users, uid)])
    } else {
        None
    }
}

/// The user with email `email`, if any: the select-user-by-email query.
pub open spec fn spec_user_by_email(users: Seq<User>, email: Seq<char>) -> Option<User> {
    if has_user_email(users, email) {
        Some(users[user_email_index(users, email)])
    } else {
        None
    }
}

/// The joined select: the owning user of session `sid`, provided the
/// session exists and has not yet expired at `now` (strictly).
pub open spec fn spec_joined_lookup(
    users: Seq<User>,
    sessions: Map<u128, Session>,
    sid: u128,
    now: i64,
) -> Option<User> {
    if sessions.contains_key(sid) && sessions[sid].expires_at > now {
        spec_user_by_id(users, sessions[sid].user_id)
    } else {
        None
    }
}

/// The single source of truth for users and sessions.
pub struct Store {
    users: Vec<User>,
    sessions: HashMap<u128, Session>,
}

impl Store {
    /// The `users` relation, in insertion order.
    pub closed spec fn users_seq(self) -> Seq<User> {
        self.users@
    }

    /// The `sessions` relation, keyed by session identifier.
    pub closed spec fn sessions_map(self) -> Map<u128, Session> {
        self.sessions@
    }

    /// Well-formedness: primary keys and emails are unique, each session
    /// row carries its own key, and every session's owner exists.
    pub closed spec fn wf(self) -> bool {
        &&& (forall|i: int, j: int|
            #![trigger self.users@[i], self.users@[j]]
            0 <= i < self.users@.len() && 0 <= j < self.users@.len() && i != j ==> {
                &&& self.users@[i].id != self.users@[j].id
                &&& self.users@[i].email@ != self.users@[j].email@
            })
        &&& (forall|sid: u128| #[trigger]
            self.sessions@.contains_key(sid) ==> self.sessions@[sid].id == sid)
        &&& (forall|sid: u128| #[trigger]
            self.sessions@.contains_key(sid) ==> has_user_id(
                self.users@,
                self.sessions@[sid].user_id,
            ))
    }

    /// An empty store.
    pub fn new() -> (s: Store)
        ensures
            s.wf(),
            s.users_seq() == Seq::<User>::empty(),
            s.sessions_map() == Map::<u128, Session>::empty(),
    {
        Store { users: Vec::new(), sessions: HashMap::new() }
    }

    /// Inserts an identity record. Refused when the identifier or the
    /// email is already taken; the store is unchanged on refusal.
    pub fn insert_user(&mut self, user: User) -> (r: Result<(), StoreError>)
        requires
            old(self).wf(),
        ensures
            final(self).wf(),
            final(self).sessions_map() == old(self).sessions_map(),
            r is Ok <==> !has_user_id(old(self).users_seq(), user.id) && !has_user_email(
                old(self).users_seq(),
                user.email@,
            ),
            r is Ok ==> final(self).users_seq() == old(self).users_seq().push(user),
            r is Err ==> final(self).users_seq() == old(self).users_seq() && r == Err::<
                (),
                StoreError,
            >(StoreError::Duplicate),
    {
        let n = self.users.len();
        let mut i: usize = 0;
        while i < n
            invariant
                old(self).wf(),
                *self == *old(self),
                n == self.users@.len(),
                i <= n,
                forall|j: int|
                    0 <= j < i ==> (#[trigger] self.users@[j]).id != user.id
                        && self.users@[j].email@ != user.email@,
            decreases n - i,
        {
            if self.users[i].id == user.id || self.users[i].email == user.email {
                return Err(StoreError::Duplicate);
            }
            i = i + 1;
        }
        self.users.push(user);
        proof {
            assert forall|sid: u128| #[trigger]
                self.sessions@.contains_key(sid) implies has_user_id(
                self.users@,
                self.sessions@[sid].user_id,
            ) by {
                let k = user_id_index(old(self).users@, self.sessions@[sid].user_id);
                assert(self.users@[k] == old(self).users@[k]);
            }
        }
        Ok(())
    }

    /// Whether a user with identifier `uid` exists.
    pub fn has_user(&self, uid: u128) -> (r: bool)
        requires
            self.wf(),
        ensures
            r == has_user_id(self.users_seq(), uid),
    {
        let n = self.users.len();
        let mut i: usize = 0;
        while i < n
            invariant
                n == self.users@.len(),
                i <= n,
                forall|j: int| 0 <= j < i ==> (#[trigger] self.users@[j]).id != uid,
            decreases n - i,
        {
            if self.users[i].id == uid {
                return true;
            }
            i = i + 1;
        }
        false
    }

    /// The user with identifier `uid`, if any.
    pub fn user_by_id(&self, uid: u128) -> (r: Option<User>)
        requires
            self.wf(),
        ensures
            r == spec_user_by_id(self.users_seq(), uid),
    {
        let n = self.users.len();
        let mut i: usize = 0;
        while i < n
            invariant
                self.wf(),
                n == self.users@.len(),
                i <= n,
                forall|j: int| 0 <= j < i ==> (#[trigger] self.users@[j]).id != uid,
            decreases n - i,
        {
            if self.users[i].id == uid {
                proof {
                    let k = user_id_index(self.users@, uid);
                    assert(self.users@[k].id == uid);
                    assert(k == i);
                }
                return Some(self.users[i].duplicate());
            }
            i = i + 1;
        }
        None
    }

    /// The select-user-by-email query, the credential lookup of the login
    /// flow. Emails compare exactly (case-sensitively).
    pub fn user_by_email(&self, email: &str) -> (r: Option<User>)
        requires
            self.wf(),
        ensures
            r == spec_user_by_email(self.users_seq(), email@),
    {
        let key = email.to_owned();
        let n = self.users.len();
        let mut i: usize = 0;
        while i < n
            invariant
                self.wf(),
                key@ == email@,
                n == self.users@.len(),
                i <= n,
                forall|j: int| 0 <= j < i ==> (#[trigger] self.users@[j]).email@ != email@,
            decreases n - i,
        {
            if self.users[i].email == key {
                proof {
                    let k = user_email_index(self.users@, email@);
                    assert(self.users@[k].email@ == email@);
                    assert(k == i);
                }
                return Some(self.users[i].duplicate());
            }
            i = i + 1;
        }
        None
    }

    /// Inserts a session row. Refused when the key is taken or the owning
    /// user does not exist; the store is unchanged on refusal.
    pub fn insert_session(&mut self, s: Session) -> (r: Result<(), StoreError>)
        requires
            old(self).wf(),
        ensures
            final(self).wf(),
            final(self).users_seq() == old(self).users_seq(),
            r is Ok <==> !old(self).sessions_map().contains_key(s.id) && has_user_id(
                old(self).users_seq(),
                s.user_id,
            ),
            r is Ok ==> final(self).sessions_map() == old(self).sessions_map().insert(s.id, s),
            r is Err ==> final(self).sessions_map() == old(self).sessions_map(),
            old(self).sessions_map().contains_key(s.id) ==> r == Err::<(), StoreError>(
                StoreError::Duplicate,
            ),
            !old(self).sessions_map().contains_key(s.id) && !has_user_id(
                old(self).users_seq(),
                s.user_id,
            ) ==> r == Err::<(), StoreError>(StoreError::ForeignKey),
    {
        if self.sessions.contains_key(&s.id) {
            return Err(StoreError::Duplicate);
        }
        if !self.has_user(s.user_id) {
            return Err(StoreError::ForeignKey);
        }
        self.sessions.insert(s.id, s);
        Ok(())
    }

    /// The session row with identifier `sid`, if any.
    pub fn get_session(&self, sid: u128) -> (r: Option<Session>)
        ensures
            r == if self.sessions_map().contains_key(sid) {
                Some(self.sessions_map()[sid])
            } else {
                None::<Session>
            },
    {
        match self.sessions.get(&sid) {
            Some(s) => Some(*s),
            None => None,
        }
    }

    /// Whether a session row with identifier `sid` exists.
    pub fn has_session(&self, sid: u128) -> (r: bool)
        ensures
            r == self.sessions_map().contains_key(sid),
    {
        self.sessions.contains_key(&sid)
    }

    /// Deletes the session row with identifier `sid`; absence is not an
    /// error.
    pub fn delete_session_row(&mut self, sid: u128)
        requires
            old(self).wf(),
        ensures
            final(self).wf(),
            final(self).users_seq() == old(self).users_seq(),
            final(self).sessions_map() == old(self).sessions_map().remove(sid),
    {
        self.sessions.remove(&sid);
    }

    /// Deletes the session row with identifier `sid` only if it has
    /// expired at `now`: the guarded delete behind lazy cleanup.
    pub fn delete_session_if_expired(&mut self, sid: u128, now: i64)
        requires
            old(self).wf(),
        ensures
            final(self).wf(),
            final(self).users_seq() == old(self).users_seq(),
            final(self).sessions_map() == if old(self).sessions_map().contains_key(sid) && old(
                self,
            ).sessions_map()[sid].expires_at <= now {
                old(self).sessions_map().remove(sid)
            } else {
                old(self).sessions_map()
            },
    {
        let expired = match self.sessions.get(&sid) {
            Some(s) => s.expires_at <= now,
            None => false,
        };
        if expired {
            self.sessions.remove(&sid);
        }
    }

    /// The joined select behind session resolution: the owning user of
    /// `sid`, provided the session has not expired at `now`.
    pub fn select_user_by_session(&self, sid: u128, now: i64) -> (r: Option<User>)
        requires
            self.wf(),
        ensures
            r == spec_joined_lookup(self.users_seq(), self.sessions_map(), sid, now),
    {
        let row = match self.sessions.get(&sid) {
            Some(s) => Some(*s),
            None => None,
        };
        match row {
            Some(s) => {
                if s.expires_at > now {
                    self.user_by_id(s.user_id)
                } else {
                    None
                }
            },
            None => None,
        }
    }
}

} // verus!
