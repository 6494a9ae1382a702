//! The credential store: the relation between identities, login tokens and
//! session tokens.
//!
//! Three append-only relations are kept, mirroring the three tables of the
//! persistent layout: identities, login tokens (an email claim awaiting
//! proof of mailbox control) and session tokens (a bearer credential bound
//! to an identity).  [`CredentialStore::wf`] is the store's invariant:
//!
//! - identity emails are stored case-normalized and are unique;
//! - identity ids are positive, unique, and below the allocation cursor;
//! - token values are well-shaped and unique within their relation;
//! - every session token references an existing identity (referential
//!   integrity: no orphaned session rows).
//!
//! Reads are side-effect-free; writes are single-row inserts, so no
//! cross-row atomicity is needed beyond the uniqueness checks themselves.

use vstd::prelude::*;
use crate::error::AuthError;
use crate::text::{lower_seq, lower_string};
use crate::token::{generate, is_token};

verus! {

/// A registered identity.  Created exactly once, on first successful
/// registration; immutable thereafter.
pub struct User {
    /// Opaque stable identifier, positive and unique.
    pub id: i64,
    pub first_name: String,
    pub last_name: String,
    /// Case-normalized, unique among identities.
    pub email: String,
    pub created_at: String,
}

impl Clone for User {
    fn clone(&self) -> (r: Self)
        ensures
            r == *self,
    {
        User {
            id: self.id,
            first_name: self.first_name.clone(),
            last_name: self.last_name.clone(),
            email: self.email.clone(),
            created_at: self.created_at.clone(),
        }
    }
}

/// One outstanding login token: proof that whoever holds `token` controlled
/// the mailbox at `email` when it was issued.  The email need not belong to
/// a registered identity.
///
/// The creation time is recorded, but no expiry is enforced and tokens are
/// not consumed on use: whether they should be is an open question of the
/// design, deliberately not settled here.
pub struct LoginToken {
    /// Opaque, unique among login tokens.
    pub token: String,
    /// Case-normalized.
    pub email: String,
    pub created_at: String,
}

/// One active browser session, bound to an identity.
pub struct SessionToken {
    /// Opaque, unique among session tokens.
    pub token: String,
    /// References an existing identity.
    pub user_id: i64,
    pub created_at: String,
}

/// The relation between identities, login tokens and session tokens.
pub struct CredentialStore {
    pub users: Vec<User>,
    pub login_tokens: Vec<LoginToken>,
    pub session_tokens: Vec<SessionToken>,
    /// The next identity id to hand out; above every stored id.
    pub next_user_id: i64,
}

impl CredentialStore {
    /// Some identity owns the (normalized) email `e`.
    pub open spec fn has_email(self, e: Seq<char>) -> bool {
        exists|i: int|
            0 <= i < self.users@.len() && #[trigger] self.users@[i].email@ == e
    }

    /// Some identity has id `id`.
    pub open spec fn has_user_id(self, id: i64) -> bool {
        exists|i: int| 0 <= i < self.users@.len() && #[trigger] self.users@[i].id == id
    }

    /// `u` is one of the stored identities, exactly as stored.
    pub open spec fn user_record(self, u: User) -> bool {
        exists|i: int| 0 <= i < self.users@.len() && #[trigger] self.users@[i] == u
    }

    /// A login token with value `t` is outstanding.
    pub open spec fn has_login_token(self, t: Seq<char>) -> bool {
        exists|i: int|
            0 <= i < self.login_tokens@.len() && #[trigger] self.login_tokens@[i].token@ == t
    }

    /// A login token with value `t` is outstanding and bound to email `e`.
    pub open spec fn login_binding(self, t: Seq<char>, e: Seq<char>) -> bool {
        exists|i: int|
            0 <= i < self.login_tokens@.len() && #[trigger] self.login_tokens@[i].token@ == t
                && self.login_tokens@[i].email@ == e
    }

    /// The login token `t` resolves to an identity: it is outstanding and
    /// its bound email is owned by some identity.
    pub open spec fn login_token_resolves(self, t: Seq<char>) -> bool {
        exists|e: Seq<char>| #[trigger] self.login_binding(t, e) && self.has_email(e)
    }

    /// A session token with value `t` is active.
    pub open spec fn has_session_token(self, t: Seq<char>) -> bool {
        exists|i: int|
            0 <= i < self.session_tokens@.len() && #[trigger] self.session_tokens@[i].token@
                == t
    }

    /// A session token with value `t` is active and bound to identity `id`.
    pub open spec fn session_binding(self, t: Seq<char>, id: i64) -> bool {
        exists|i: int|
            0 <= i < self.session_tokens@.len() && #[trigger] self.session_tokens@[i].token@
                == t && self.session_tokens@[i].user_id == id
    }

    /// Invariant on the identity relation: emails normalized and unique,
    /// ids positive, unique and below the allocation cursor.
    pub open spec fn users_wf(self) -> bool {
        &&& forall|i: int, j: int|
            0 <= i < j < self.users@.len() ==> self.users@[i].email@ != self.users@[j].email@
        &&& forall|i: int, j: int|
            0 <= i < j < self.users@.len() ==> self.users@[i].id != self.users@[j].id
        &&& forall|i: int|
            0 <= i < self.users@.len() ==> #[trigger] self.users@[i].email@ == lower_seq(
                self.users@[i].email@,
            )
        &&& forall|i: int|
            0 <= i < self.users@.len() ==> 0 < #[trigger] self.users@[i].id < self.next_user_id
    }

    /// Invariant on the login-token relation: values well-shaped and unique,
    /// bound emails normalized.
    pub open spec fn login_tokens_wf(self) -> bool {
        &&& forall|i: int, j: int|
            0 <= i < j < self.login_tokens@.len() ==> self.login_tokens@[i].token@
                != self.login_tokens@[j].token@
        &&& forall|i: int|
            0 <= i < self.login_tokens@.len() ==> is_token(
                #[trigger] self.login_tokens@[i].token@,
            )
        &&& forall|i: int|
            0 <= i < self.login_tokens@.len() ==> #[trigger] self.login_tokens@[i].email@
                == lower_seq(self.login_tokens@[i].email@)
    }

    /// Invariant on the session-token relation: values well-shaped and
    /// unique, and every row references an existing identity.
    pub open spec fn session_tokens_wf(self) -> bool {
        &&& forall|i: int, j: int|
            0 <= i < j < self.session_tokens@.len() ==> self.session_tokens@[i].token@
                != self.session_tokens@[j].token@
        &&& forall|i: int|
            0 <= i < self.session_tokens@.len() ==> is_token(
                #[trigger] self.session_tokens@[i].token@,
            )
        &&& forall|i: int|
            0 <= i < self.session_tokens@.len() ==> self.has_user_id(
                #[trigger] self.session_tokens@[i].user_id,
            )
    }

    /// The store's invariant: every constructor establishes it and every
    /// operation preserves it.
    pub open spec fn wf(self) -> bool {
        &&& self.users_wf()
        &&& self.login_tokens_wf()
        &&& self.session_tokens_wf()
        &&& 1 <= self.next_user_id
    }

    /// An empty store.
    pub fn new() -> (s: Self)
        ensures
            s.wf(),
            s.users@.len() == 0,
            s.login_tokens@.len() == 0,
            s.session_tokens@.len() == 0,
            s.next_user_id == 1,
    {
        CredentialStore {
            users: Vec::new(),
            login_tokens: Vec::new(),
            session_tokens: Vec::new(),
            next_user_id: 1,
        }
    }

    /// Index of the identity owning the already-normalized email `e`.
    fn find_user_idx_by_email(&self, e: &String) -> (r: Option<usize>)
        ensures
            match r {
                Some(i) => i < self.users@.len() && self.users@[i as int].email@ == e@,
                None => !self.has_email(e@),
            },
    {
        let mut i: usize = 0;
        while i < self.users.len()
            invariant
                i <= self.users@.len(),
                forall|k: int| 0 <= k < i ==> #[trigger] self.users@[k].email@ != e@,
            decreases self.users@.len() - i,
        {
            if self.users[i].email == *e {
                return Some(i);
            }
            i += 1;
        }
        None
    }

    /// Index of the identity with id `id`.
    fn find_user_idx_by_id(&self, id: i64) -> (r: Option<usize>)
        ensures
            match r {
                Some(i) => i < self.users@.len() && self.users@[i as int].id == id,
                None => !self.has_user_id(id),
            },
    {
        let mut i: usize = 0;
        while i < self.users.len()
            invariant
                i <= self.users@.len(),
                forall|k: int| 0 <= k < i ==> #[trigger] self.users@[k].id != id,
            decreases self.users@.len() - i,
        {
            if self.users[i].id == id {
                return Some(i);
            }
            i += 1;
        }
        None
    }

    /// Index of the outstanding login token with value `t`.
    fn find_login_idx(&self, t: &String) -> (r: Option<usize>)
        ensures
            match r {
                Some(i) => i < self.login_tokens@.len() && self.login_tokens@[i as int].token@
                    == t@,
                None => !self.has_login_token(t@),
            },
    {
        let mut i: usize = 0;
        while i < self.login_tokens.len()
            invariant
                i <= self.login_tokens@.len(),
                forall|k: int| 0 <= k < i ==> #[trigger] self.login_tokens@[k].token@ != t@,
            decreases self.login_tokens@.len() - i,
        {
            if self.login_tokens[i].token == *t {
                return Some(i);
            }
            i += 1;
        }
        None
    }

    /// Index of the active session token with value `t`.
    fn find_session_idx(&self, t: &String) -> (r: Option<usize>)
        ensures
            match r {
                Some(i) => i < self.session_tokens@.len()
                    && self.session_tokens@[i as int].token@ == t@,
                None => !self.has_session_token(t@),
            },
    {
        let mut i: usize = 0;
        while i < self.session_tokens.len()
            invariant
                i <= self.session_tokens@.len(),
                forall|k: int| 0 <= k < i ==> #[trigger] self.session_tokens@[k].token@ != t@,
            decreases self.session_tokens@.len() - i,
        {
            if self.session_tokens[i].token == *t {
                return Some(i);
            }
            i += 1;
        }
        None
    }
}

impl CredentialStore {
    /// Insert a new identity.
    ///
    /// The email is case-normalized before storage.  Fails with
    /// `DuplicateEmail` exactly when the normalized email already has an
    /// identity, and with `Storage` exactly when the identifier space is
    /// exhausted; otherwise appends one identity row and hands out a fresh
    /// id.
    pub fn create_identity(&mut self, first_name: &str, last_name: &str, email: &str, now: &str)
        -> (r: Result<i64, AuthError>)
        requires
            old(self).wf(),
        ensures
            final(self).wf(),
            final(self).login_tokens@ == old(self).login_tokens@,
            final(self).session_tokens@ == old(self).session_tokens@,
            match r {
                Ok(id) => {
                    &&& !old(self).has_email(lower_seq(email@))
                    &&& old(self).next_user_id < i64::MAX
                    &&& id == old(self).next_user_id
                    &&& final(self).next_user_id == old(self).next_user_id + 1
                    &&& final(self).users@ == old(self).users@.push(final(self).users@.last())
                    &&& final(self).users@.last().id == id
                    &&& final(self).users@.last().first_name@ == first_name@
                    &&& final(self).users@.last().last_name@ == last_name@
                    &&& final(self).users@.last().email@ == lower_seq(email@)
                    &&& final(self).users@.last().created_at@ == now@
                },
                Err(AuthError::DuplicateEmail) => old(self).has_email(lower_seq(email@))
                    && *final(self) == *old(self),
                Err(AuthError::Storage) => !old(self).has_email(lower_seq(email@))
                    && old(self).next_user_id == i64::MAX && *final(self) == *old(self),
                Err(_) => false,
            },
    {
        let ne = lower_string(email);
        proof {
            crate::text::lemma_lower_seq_idempotent(email@);
        }
        if self.find_user_idx_by_email(&ne).is_some() {
            return Err(AuthError::DuplicateEmail);
        }
        if self.next_user_id == i64::MAX {
            return Err(AuthError::Storage);
        }
        let id = self.next_user_id;
        let u = User {
            id,
            first_name: first_name.to_owned(),
            last_name: last_name.to_owned(),
            email: ne,
            created_at: now.to_owned(),
        };
        self.users.push(u);
        self.next_user_id = id + 1;
        proof {
            assert forall|k: int|
                0 <= k < final(self).session_tokens@.len() implies final(self).has_user_id(
                final(self).session_tokens@[k].user_id,
            ) by {
                assert(old(self).has_user_id(old(self).session_tokens@[k].user_id));
                let i = choose|i: int|
                    0 <= i < old(self).users@.len() && #[trigger] old(self).users@[i].id == old(
                        self,
                    ).session_tokens@[k].user_id;
                assert(final(self).users@[i].id == final(self).session_tokens@[k].user_id);
            }
        }
        Ok(id)
    }

    /// Case-normalized lookup of an identity by email.
    ///
    /// Returns `None` when absent: callers cannot distinguish "unknown
    /// email" from "no match", so the response gives no enumeration oracle.
    pub fn find_identity_by_email(&self, email: &str) -> (r: Option<User>)
        requires
            self.wf(),
        ensures
            match r {
                Some(u) => self.has_email(lower_seq(email@)) && self.user_record(u) && u.email@
                    == lower_seq(email@),
                None => !self.has_email(lower_seq(email@)),
            },
    {
        let ne = lower_string(email);
        match self.find_user_idx_by_email(&ne) {
            Some(i) => Some(self.users[i].clone()),
            None => None,
        }
    }

    /// Generate a fresh token and persist it against `email`.
    ///
    /// The email need not belong to a registered identity: a login token
    /// for an unknown address drives the registration branch.  A generated
    /// value colliding with an outstanding token surfaces as the retryable
    /// `TokenCollision`; failure of the randomness source as `Storage`.
    pub fn issue_login_token(&mut self, email: &str, now: &str) -> (r: Result<
        String,
        AuthError,
    >)
        requires
            old(self).wf(),
        ensures
            final(self).wf(),
            final(self).users@ == old(self).users@,
            final(self).session_tokens@ == old(self).session_tokens@,
            final(self).next_user_id == old(self).next_user_id,
            match r {
                Ok(t) => {
                    &&& is_token(t@)
                    &&& !old(self).has_login_token(t@)
                    &&& final(self).login_tokens@ == old(self).login_tokens@.push(
                        final(self).login_tokens@.last(),
                    )
                    &&& final(self).login_tokens@.last().token@ == t@
                    &&& final(self).login_tokens@.last().email@ == lower_seq(email@)
                    &&& final(self).login_tokens@.last().created_at@ == now@
                    &&& final(self).login_binding(t@, lower_seq(email@))
                },
                Err(AuthError::Storage) => *final(self) == *old(self),
                Err(AuthError::TokenCollision) => *final(self) == *old(self),
                Err(_) => false,
            },
    {
        let t = match generate() {
            Some(t) => t,
            None => {
                return Err(AuthError::Storage);
            },
        };
        if self.find_login_idx(&t).is_some() {
            return Err(AuthError::TokenCollision);
        }
        let ne = lower_string(email);
        proof {
            crate::text::lemma_lower_seq_idempotent(email@);
        }
        let rec = LoginToken { token: t.clone(), email: ne, created_at: now.to_owned() };
        self.login_tokens.push(rec);
        proof {
            assert(final(self).login_tokens@.last().token@ == t@);
        }
        Ok(t)
    }

    /// Resolve a login token to an identity by joining through its bound
    /// email.
    ///
    /// `None` covers both an unknown token and a bound email with no
    /// identity: the two cases are intentionally indistinguishable here.
    pub fn find_identity_by_login_token(&self, token: &str) -> (r: Option<User>)
        requires
            self.wf(),
        ensures
            match r {
                Some(u) => self.login_binding(token@, u.email@) && self.user_record(u)
                    && self.login_token_resolves(token@),
                None => !self.login_token_resolves(token@),
            },
    {
        let t = token.to_owned();
        match self.find_login_idx(&t) {
            Some(i) => {
                let ghost li = i as int;
                let e = self.login_tokens[i].email.clone();
                match self.find_user_idx_by_email(&e) {
                    Some(j) => {
                        let u = self.users[j].clone();
                        proof {
                            assert(self.login_binding(token@, u.email@));
                            assert(self.has_email(u.email@));
                        }
                        Some(u)
                    },
                    None => {
                        proof {
                            assert forall|e2: Seq<char>|
                                self.login_binding(token@, e2) implies e2 == e@ by {
                                let k = choose|k: int|
                                    0 <= k < self.login_tokens@.len()
                                        && #[trigger] self.login_tokens@[k].token@ == token@
                                        && self.login_tokens@[k].email@ == e2;
                                assert(k == li);
                            }
                        }
                        None
                    },
                }
            },
            None => {
                proof {
                    assert forall|e2: Seq<char>| !self.login_binding(token@, e2) by {
                        if self.login_binding(token@, e2) {
                            let k = choose|k: int|
                                0 <= k < self.login_tokens@.len()
                                    && #[trigger] self.login_tokens@[k].token@ == token@
                                    && self.login_tokens@[k].email@ == e2;
                            assert(self.has_login_token(token@));
                        }
                    }
                }
                None
            },
        }
    }

    /// Resolve a login token to its bound email, whether or not an identity
    /// owns that email.  Used exclusively by the registration path.
    pub fn find_email_by_login_token(&self, token: &str) -> (r: Option<String>)
        requires
            self.wf(),
        ensures
            match r {
                Some(e) => self.login_binding(token@, e@) && e@ == lower_seq(e@),
                None => !self.has_login_token(token@),
            },
    {
        let t = token.to_owned();
        match self.find_login_idx(&t) {
            Some(i) => Some(self.login_tokens[i].email.clone()),
            None => None,
        }
    }

    /// Generate a fresh token and persist it against identity `user_id`.
    ///
    /// Fails with `UnknownIdentity` exactly when no identity has that id
    /// (referential integrity: no orphaned session row is ever written).
    pub fn issue_session_token(&mut self, user_id: i64, now: &str) -> (r: Result<
        String,
        AuthError,
    >)
        requires
            old(self).wf(),
        ensures
            final(self).wf(),
            final(self).users@ == old(self).users@,
            final(self).login_tokens@ == old(self).login_tokens@,
            final(self).next_user_id == old(self).next_user_id,
            match r {
                Ok(t) => {
                    &&& old(self).has_user_id(user_id)
                    &&& is_token(t@)
                    &&& !old(self).has_session_token(t@)
                    &&& final(self).session_tokens@ == old(self).session_tokens@.push(
                        final(self).session_tokens@.last(),
                    )
                    &&& final(self).session_tokens@.last().token@ == t@
                    &&& final(self).session_tokens@.last().user_id == user_id
                    &&& final(self).session_tokens@.last().created_at@ == now@
                    &&& final(self).session_binding(t@, user_id)
                },
                Err(AuthError::UnknownIdentity) => !old(self).has_user_id(user_id)
                    && *final(self) == *old(self),
                Err(AuthError::Storage) => old(self).has_user_id(user_id) && *final(self)
                    == *old(self),
                Err(AuthError::TokenCollision) => old(self).has_user_id(user_id)
                    && *final(self) == *old(self),
                Err(_) => false,
            },
    {
        let uidx = match self.find_user_idx_by_id(user_id) {
            Some(i) => i,
            None => {
                return Err(AuthError::UnknownIdentity);
            },
        };
        let ghost uw = uidx as int;
        let t = match generate() {
            Some(t) => t,
            None => {
                return Err(AuthError::Storage);
            },
        };
        if self.find_session_idx(&t).is_some() {
            return Err(AuthError::TokenCollision);
        }
        let rec = SessionToken { token: t.clone(), user_id, created_at: now.to_owned() };
        self.session_tokens.push(rec);
        proof {
            assert forall|k: int|
                0 <= k < final(self).session_tokens@.len() implies final(self).has_user_id(
                final(self).session_tokens@[k].user_id,
            ) by {
                if k < old(self).session_tokens@.len() {
                    assert(old(self).has_user_id(old(self).session_tokens@[k].user_id));
                    let i = choose|i: int|
                        0 <= i < old(self).users@.len() && #[trigger] old(self).users@[i].id
                            == old(self).session_tokens@[k].user_id;
                    assert(final(self).users@[i].id == final(self).session_tokens@[k].user_id);
                } else {
                    assert(final(self).session_tokens@[k].user_id == user_id);
                    assert(final(self).users@[uw].id == user_id);
                }
            }
            assert(old(self).users@[uw].id == user_id);
            assert(old(self).has_user_id(user_id));
            let n = old(self).session_tokens@.len() as int;
            assert(final(self).session_tokens@[n].token@ == t@);
            assert(final(self).session_tokens@[n].user_id == user_id);
            assert(final(self).session_binding(t@, user_id));
        }
        Ok(t)
    }

    /// Resolve an active session token to its identity.
    ///
    /// Referential integrity makes the join total: whenever the token is
    /// found, its identity exists.
    pub fn find_identity_by_session_token(&self, token: &str) -> (r: Option<User>)
        requires
            self.wf(),
        ensures
            match r {
                Some(u) => self.has_session_token(token@) && self.session_binding(token@, u.id)
                    && self.user_record(u),
                None => !self.has_session_token(token@),
            },
    {
        let t = token.to_owned();
        match self.find_session_idx(&t) {
            Some(i) => {
                let uid = self.session_tokens[i].user_id;
                match self.find_user_idx_by_id(uid) {
                    Some(j) => Some(self.users[j].clone()),
                    None => {
                        proof {
                            assert(self.has_user_id(uid));
                            assert(false);
                        }
                        None
                    },
                }
            },
            None => None,
        }
    }
}

} // verus!
