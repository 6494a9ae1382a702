//! The guarantees the flow rests on, proved once and for all over the
//! store's model.  Each lemma is stated in the spec vocabulary that the
//! operations' own contracts use, so it applies to every state the
//! operations can produce.

use vstd::prelude::*;
use crate::error::{status_of, AuthError};
use crate::store::CredentialStore;
use crate::token::is_token;

verus! {

/// A login token value is bound to at most one email.
pub proof fn lemma_login_binding_unique(
    s: CredentialStore,
    t: Seq<char>,
    e1: Seq<char>,
    e2: Seq<char>,
)
    requires
        s.wf(),
        s.login_binding(t, e1),
        s.login_binding(t, e2),
    ensures
        e1 == e2,
{
    let i = choose|i: int|
        0 <= i < s.login_tokens@.len() && #[trigger] s.login_tokens@[i].token@ == t
            && s.login_tokens@[i].email@ == e1;
    let j = choose|j: int|
        0 <= j < s.login_tokens@.len() && #[trigger] s.login_tokens@[j].token@ == t
            && s.login_tokens@[j].email@ == e2;
    if i != j {
        assert(s.login_tokens@[i].token@ != s.login_tokens@[j].token@);
    }
}

/// At most one identity owns a given email.
pub proof fn lemma_email_owner_unique(s: CredentialStore, e: Seq<char>, i: int, j: int)
    requires
        s.wf(),
        0 <= i < s.users@.len(),
        0 <= j < s.users@.len(),
        s.users@[i].email@ == e,
        s.users@[j].email@ == e,
    ensures
        i == j,
{
    if i != j {
        assert(s.users@[i].email@ != s.users@[j].email@);
    }
}

/// A login token issued for email `e` resolves to an identity exactly when
/// an identity owning `e` exists at presentation time -- not at issuance
/// time.
pub proof fn lemma_login_token_resolution(s: CredentialStore, t: Seq<char>, e: Seq<char>)
    requires
        s.wf(),
        s.login_binding(t, e),
    ensures
        s.login_token_resolves(t) <==> s.has_email(e),
{
    if s.has_email(e) {
        assert(s.login_binding(t, e) && s.has_email(e));
        assert(s.login_token_resolves(t));
    }
    if s.login_token_resolves(t) {
        let e2 = choose|e2: Seq<char>| #[trigger] s.login_binding(t, e2) && s.has_email(e2);
        lemma_login_binding_unique(s, t, e, e2);
    }
}

/// A session token bound to identity `id` is active and names no other
/// identity: whatever lookup returns for it belongs to `id`.
pub proof fn lemma_session_token_resolution(s: CredentialStore, t: Seq<char>, id: i64)
    requires
        s.wf(),
        s.session_binding(t, id),
    ensures
        s.has_session_token(t),
        forall|id2: i64| #[trigger] s.session_binding(t, id2) ==> id2 == id,
{
    let i = choose|i: int|
        0 <= i < s.session_tokens@.len() && #[trigger] s.session_tokens@[i].token@ == t
            && s.session_tokens@[i].user_id == id;
    assert(s.has_session_token(t));
    assert forall|id2: i64| #[trigger] s.session_binding(t, id2) implies id2 == id by {
        let j = choose|j: int|
            0 <= j < s.session_tokens@.len() && #[trigger] s.session_tokens@[j].token@ == t
                && s.session_tokens@[j].user_id == id2;
        if i != j {
            assert(s.session_tokens@[i].token@ != s.session_tokens@[j].token@);
        }
    }
}

/// A login token bound to a given email resolves to exactly that email:
/// looking it up after storing it gives the original bound value back.
pub proof fn lemma_login_token_roundtrip(s: CredentialStore, t: Seq<char>, e: Seq<char>)
    requires
        s.wf(),
        s.login_binding(t, e),
    ensures
        s.has_login_token(t),
        forall|e2: Seq<char>| #[trigger] s.login_binding(t, e2) ==> e2 == e,
{
    assert forall|e2: Seq<char>| #[trigger] s.login_binding(t, e2) implies e2 == e by {
        lemma_login_binding_unique(s, t, e, e2);
    }
}

/// Once registration through a login token has created the identity, the
/// store holds exactly one identity with the bound email, and the token now
/// resolves to it: presenting the token again logs in, while submitting the
/// registration form again must conflict on the duplicate email.
pub proof fn lemma_token_reuse_after_registration(s: CredentialStore, t: Seq<char>, e: Seq<char>)
    requires
        s.wf(),
        s.login_binding(t, e),
        s.has_email(e),
    ensures
        s.login_token_resolves(t),
        forall|i: int, j: int|
            (0 <= i < s.users@.len() && 0 <= j < s.users@.len() && s.users@[i].email@ == e
                && s.users@[j].email@ == e) ==> i == j,
{
    lemma_login_token_resolution(s, t, e);
    assert forall|i: int, j: int|
        (0 <= i < s.users@.len() && 0 <= j < s.users@.len() && s.users@[i].email@ == e
            && s.users@[j].email@ == e) implies i == j by {
        lemma_email_owner_unique(s, e, i, j);
    }
}

/// A token string of the wrong shape is never stored, so it can neither
/// resolve to an identity nor open a session: it can only be refused.
pub proof fn lemma_malformed_token_unresolvable(s: CredentialStore, t: Seq<char>)
    requires
        s.wf(),
        !is_token(t),
    ensures
        !s.has_login_token(t),
        !s.has_session_token(t),
        !s.login_token_resolves(t),
{
    if s.has_login_token(t) {
        let i = choose|i: int|
            0 <= i < s.login_tokens@.len() && #[trigger] s.login_tokens@[i].token@ == t;
        assert(is_token(s.login_tokens@[i].token@));
    }
    if s.has_session_token(t) {
        let i = choose|i: int|
            0 <= i < s.session_tokens@.len() && #[trigger] s.session_tokens@[i].token@ == t;
        assert(is_token(s.session_tokens@[i].token@));
    }
    if s.login_token_resolves(t) {
        let e = choose|e: Seq<char>| #[trigger] s.login_binding(t, e) && s.has_email(e);
        let i = choose|i: int|
            0 <= i < s.login_tokens@.len() && #[trigger] s.login_tokens@[i].token@ == t
                && s.login_tokens@[i].email@ == e;
        assert(s.has_login_token(t));
    }
}

/// A refused or failed request never answers with a success status, and
/// only the unknown-token refusal answers 403.
pub proof fn lemma_error_status_never_success(e: AuthError)
    ensures
        status_of(e) != 200,
        status_of(e) == 403 <==> e == AuthError::TokenNotFound,
{
}

} // verus!
