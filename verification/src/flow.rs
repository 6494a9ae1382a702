//! The auth flow controller: request -> verify -> promote.
//!
//! Each function drives one externally visible step of the passwordless
//! flow against the credential store, and returns plain values for the
//! transport layer to act on: an acknowledgment page, a mail to deliver, a
//! session cookie to set, or a refusal.  The login-vs-register branch is
//! decided by whether the presented login token resolves to a known
//! identity at the moment it is presented, not at issuance time.

use vstd::prelude::*;
use crate::error::{AppError, AuthError};
use crate::store::{CredentialStore, User};
use crate::text::lower_seq;
use crate::token::is_token;

verus! {

/// A mail the transport layer still has to deliver: the login link.
pub struct MailDirective {
    /// The address exactly as the visitor submitted it.
    pub recipient: String,
    /// The verification URL, carrying the fresh login token.
    pub body: String,
}

/// What a login request hands back: the page text and the mail to send.
pub struct LoginRequestOutcome {
    /// Always the same generic sentence, whether or not the email has an
    /// identity: the response body gives no enumeration oracle.
    pub acknowledgment: String,
    pub mail: MailDirective,
}

/// A freshly opened session: the cookie value and the identity behind it.
pub struct SessionGrant {
    pub session_token: String,
    pub user: User,
}

/// The outcome of presenting a login token.
pub enum PresentOutcome {
    /// The token resolved to an identity; a session was opened.
    Authenticated(SessionGrant),
    /// The token is unknown, or its email has no identity.
    Forbidden,
}

/// The outcome of submitting the registration form.
pub enum RegisterOutcome {
    /// The identity was created and a session opened for it.
    Authenticated(SessionGrant),
    /// The login token is unknown.
    Forbidden,
}

/// The one acknowledgment text a login request ever shows.
pub open spec fn ack_text() -> Seq<char> {
    "Check your email!"@
}

/// Path and query prefix of the link mailed to a registered email.
pub open spec fn login_path() -> Seq<char> {
    "/login?token="@
}

/// Path and query prefix of the link mailed to an unregistered email.
pub open spec fn register_path() -> Seq<char> {
    "/register?token="@
}

/// Step one: a visitor asks to log in with an email address.
///
/// A login token is recorded against the email, and the mailed link targets
/// the login page when the email already has an identity, the registration
/// page otherwise.  The returned acknowledgment is the same fixed sentence
/// in both cases, so the response body never reveals whether the email is
/// registered.
pub fn request_login(store: &mut CredentialStore, email: &str, base_url: &str, now: &str) -> (r:
    Result<LoginRequestOutcome, AppError>)
    requires
        old(store).wf(),
    ensures
        final(store).wf(),
        final(store).users@ == old(store).users@,
        final(store).session_tokens@ == old(store).session_tokens@,
        match r {
            Ok(o) => {
                &&& o.acknowledgment@ == ack_text()
                &&& o.mail.recipient@ == email@
                &&& final(store).login_tokens@ == old(store).login_tokens@.push(
                    final(store).login_tokens@.last(),
                )
                &&& is_token(final(store).login_tokens@.last().token@)
                &&& !old(store).has_login_token(final(store).login_tokens@.last().token@)
                &&& final(store).login_tokens@.last().email@ == lower_seq(email@)
                &&& final(store).login_tokens@.last().created_at@ == now@
                &&& o.mail.body@ == base_url@ + (if old(store).has_email(lower_seq(email@)) {
                    login_path()
                } else {
                    register_path()
                }) + final(store).login_tokens@.last().token@
            },
            Err(e) => (e.0 == AuthError::TokenCollision || e.0 == AuthError::Storage)
                && *final(store) == *old(store),
        },
{
    let token = match store.issue_login_token(email, now) {
        Ok(t) => t,
        Err(e) => {
            return Err(AppError(e));
        },
    };
    let registered = store.find_identity_by_email(email).is_some();
    let mut body = base_url.to_owned();
    if registered {
        body.append("/login?token=");
    } else {
        body.append("/register?token=");
    }
    body.append(token.as_str());
    let outcome = LoginRequestOutcome {
        acknowledgment: String::from_str("Check your email!"),
        mail: MailDirective { recipient: email.to_owned(), body },
    };
    Ok(outcome)
}

/// Step two, login branch: a visitor follows the mailed link and presents
/// the login token.
///
/// If the token resolves to an identity, a session token is issued for
/// exactly that identity; otherwise the visitor is refused.  An unknown or
/// malformed token can only end in `Forbidden`, never in an error.
pub fn present_login_token(store: &mut CredentialStore, token: &str, now: &str) -> (r: Result<
    PresentOutcome,
    AppError,
>)
    requires
        old(store).wf(),
    ensures
        final(store).wf(),
        final(store).users@ == old(store).users@,
        final(store).login_tokens@ == old(store).login_tokens@,
        match r {
            Ok(PresentOutcome::Forbidden) => !old(store).login_token_resolves(token@)
                && *final(store) == *old(store),
            Ok(PresentOutcome::Authenticated(g)) => {
                &&& old(store).login_token_resolves(token@)
                &&& old(store).login_binding(token@, g.user.email@)
                &&& old(store).user_record(g.user)
                &&& is_token(g.session_token@)
                &&& !old(store).has_session_token(g.session_token@)
                &&& final(store).session_tokens@ == old(store).session_tokens@.push(
                    final(store).session_tokens@.last(),
                )
                &&& final(store).session_tokens@.last().token@ == g.session_token@
                &&& final(store).session_tokens@.last().user_id == g.user.id
                &&& final(store).session_binding(g.session_token@, g.user.id)
            },
            Err(e) => (e.0 == AuthError::TokenCollision || e.0 == AuthError::Storage)
                && old(store).login_token_resolves(token@) && *final(store) == *old(store),
        },
{
    let user = match store.find_identity_by_login_token(token) {
        Some(u) => u,
        None => {
            return Ok(PresentOutcome::Forbidden);
        },
    };
    match store.issue_session_token(user.id, now) {
        Ok(t) => Ok(PresentOutcome::Authenticated(SessionGrant { session_token: t, user })),
        Err(e) => {
            proof {
                assert(e != AuthError::UnknownIdentity);
            }
            Err(AppError(e))
        },
    }
}

/// Step two, registration branch: the visitor submits the registration
/// form with the login token and their name.
///
/// The email bound to the token is resolved first; an unknown token is
/// refused.  Then the identity is created (conflicting with
/// `DuplicateEmail` when the email gained an identity in the meantime, or
/// on resubmission of the same token) and a session is opened for it.
pub fn submit_registration(
    store: &mut CredentialStore,
    token: &str,
    first_name: &str,
    last_name: &str,
    now: &str,
) -> (r: Result<RegisterOutcome, AppError>)
    requires
        old(store).wf(),
    ensures
        final(store).wf(),
        final(store).login_tokens@ == old(store).login_tokens@,
        match r {
            Ok(RegisterOutcome::Forbidden) => !old(store).has_login_token(token@)
                && *final(store) == *old(store),
            Ok(RegisterOutcome::Authenticated(g)) => {
                &&& old(store).has_login_token(token@)
                &&& old(store).login_binding(token@, g.user.email@)
                &&& !old(store).has_email(g.user.email@)
                &&& final(store).users@ == old(store).users@.push(g.user)
                &&& g.user.id == old(store).next_user_id
                &&& g.user.first_name@ == first_name@
                &&& g.user.last_name@ == last_name@
                &&& g.user.created_at@ == now@
                &&& final(store).has_email(g.user.email@)
                &&& is_token(g.session_token@)
                &&& final(store).session_tokens@ == old(store).session_tokens@.push(
                    final(store).session_tokens@.last(),
                )
                &&& final(store).session_tokens@.last().token@ == g.session_token@
                &&& final(store).session_tokens@.last().user_id == g.user.id
                &&& final(store).session_binding(g.session_token@, g.user.id)
            },
            Err(e) => {
                &&& old(store).has_login_token(token@)
                &&& (match e.0 {
                    AuthError::DuplicateEmail => {
                        &&& exists|em: Seq<char>|
                            #[trigger] old(store).login_binding(token@, em) && old(
                                store,
                            ).has_email(em)
                        &&& *final(store) == *old(store)
                    },
                    AuthError::Storage => {
                        &&& final(store).session_tokens@ == old(store).session_tokens@
                        &&& ((*final(store) == *old(store) && old(store).next_user_id
                            == i64::MAX) || final(store).users@.len() == old(store).users@.len()
                            + 1)
                    },
                    AuthError::TokenCollision => {
                        &&& final(store).session_tokens@ == old(store).session_tokens@
                        &&& final(store).users@.len() == old(store).users@.len() + 1
                    },
                    _ => false,
                })
            },
        },
{
    let email = match store.find_email_by_login_token(token) {
        Some(e) => e,
        None => {
            return Ok(RegisterOutcome::Forbidden);
        },
    };
    proof {
        crate::text::lemma_lower_seq_idempotent(email@);
    }
    let user_id = match store.create_identity(first_name, last_name, email.as_str(), now) {
        Ok(id) => id,
        Err(e) => {
            return Err(AppError(e));
        },
    };
    let ghost mid = store.users@.len() - 1;
    let user = match store.find_identity_by_email(email.as_str()) {
        Some(u) => u,
        None => {
            proof {
                assert(store.users@.last().email@ == lower_seq(email@));
                assert(store.has_email(lower_seq(email@)));
                assert(false);
            }
            return Ok(RegisterOutcome::Forbidden);
        },
    };
    proof {
        assert(store.user_record(user));
        let i = choose|i: int| 0 <= i < store.users@.len() && #[trigger] store.users@[i] == user;
        assert(old(store).users_wf());
        if i < mid {
            assert(old(store).users@[i].email@ == user.email@);
            assert(old(store).has_email(lower_seq(email@)));
            assert(false);
        }
        assert(user == store.users@[mid as int]);
    }
    match store.issue_session_token(user_id, now) {
        Ok(t) => Ok(RegisterOutcome::Authenticated(SessionGrant { session_token: t, user })),
        Err(e) => {
            proof {
                assert(store.has_user_id(user_id));
                assert(e != AuthError::UnknownIdentity);
            }
            Err(AppError(e))
        },
    }
}

/// Every protected request: resolve the session cookie to its identity.
///
/// No state transition happens; an unknown token simply fails to resolve.
pub fn authenticate_session(store: &CredentialStore, token: &str) -> (r: Option<User>)
    requires
        store.wf(),
    ensures
        match r {
            Some(u) => store.has_session_token(token@) && store.session_binding(token@, u.id)
                && store.user_record(u),
            None => !store.has_session_token(token@),
        },
{
    store.find_identity_by_session_token(token)
}

} // verus!
