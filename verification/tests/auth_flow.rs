//! End-to-end scenarios for the passwordless flow.

use wlsd::error::{AppError, AuthError};
use wlsd::flow::{
    authenticate_session, present_login_token, request_login, submit_registration,
    PresentOutcome, RegisterOutcome,
};
use wlsd::store::CredentialStore;

const URL: &str = "https://radio.example";
const NOW: &str = "2024-01-01 00:00:00";

fn token_of(mail_body: &str) -> String {
    mail_body[mail_body.len() - 16..].to_string()
}

#[test]
fn request_login_acknowledgment_is_generic() {
    let mut store = CredentialStore::new();
    store
        .create_identity("Ada", "Lovelace", "ada@example.com", NOW)
        .unwrap();

    let known = request_login(&mut store, "ada@example.com", URL, NOW).unwrap();
    let unknown = request_login(&mut store, "nobody@example.com", URL, NOW).unwrap();

    // The response body is identical whether or not the email is registered.
    assert_eq!(known.acknowledgment, "Check your email!");
    assert_eq!(unknown.acknowledgment, "Check your email!");

    // Only the mailed link differs: login for a known email, register else.
    assert!(known.mail.body.starts_with("https://radio.example/login?token="));
    assert!(unknown.mail.body.starts_with("https://radio.example/register?token="));
    assert_eq!(known.mail.recipient, "ada@example.com");
    assert_eq!(unknown.mail.recipient, "nobody@example.com");
}

#[test]
fn login_token_resolves_iff_identity_exists_at_presentation() {
    let mut store = CredentialStore::new();
    let token = store.issue_login_token("late@example.com", NOW).unwrap();

    // No identity yet: the token does not resolve.
    assert!(store.find_identity_by_login_token(&token).is_none());

    // The identity appears after issuance; the same token now resolves,
    // because the branch is decided at presentation time.
    store
        .create_identity("Late", "Riser", "late@example.com", NOW)
        .unwrap();
    let user = store.find_identity_by_login_token(&token).unwrap();
    assert_eq!(user.email, "late@example.com");
}

#[test]
fn registration_creates_one_identity_and_one_session() {
    let mut store = CredentialStore::new();
    let outcome = request_login(&mut store, "new@example.com", URL, NOW).unwrap();
    let token = token_of(&outcome.mail.body);

    let grant = match submit_registration(&mut store, &token, "New", "Comer", NOW).unwrap() {
        RegisterOutcome::Authenticated(g) => g,
        RegisterOutcome::Forbidden => panic!("fresh token was refused"),
    };
    assert_eq!(store.users.len(), 1);
    assert_eq!(store.session_tokens.len(), 1);
    assert_eq!(grant.user.email, "new@example.com");
    assert_eq!(grant.user.first_name, "New");
    assert_eq!(grant.user.last_name, "Comer");

    // Resubmitting the same token conflicts on the now-existing email.
    let again = submit_registration(&mut store, &token, "New", "Comer", NOW);
    assert!(matches!(again, Err(AppError(AuthError::DuplicateEmail))));
    assert_eq!(store.users.len(), 1);
    assert_eq!(store.session_tokens.len(), 1);
}

#[test]
fn session_token_resolves_back_to_its_identity() {
    let mut store = CredentialStore::new();
    let id = store
        .create_identity("Ada", "Lovelace", "ada@example.com", NOW)
        .unwrap();
    let token = store.issue_session_token(id, NOW).unwrap();

    let user = store.find_identity_by_session_token(&token).unwrap();
    assert_eq!(user.id, id);
    assert_eq!(user.email, "ada@example.com");
}

#[test]
fn duplicate_registration_leaves_exactly_one_row() {
    let mut store = CredentialStore::new();
    let first = store.create_identity("One", "Winner", "same@example.com", NOW);
    let second = store.create_identity("Two", "Loser", "Same@Example.Com", NOW);

    assert!(first.is_ok());
    assert_eq!(second, Err(AuthError::DuplicateEmail));
    let matching = store
        .users
        .iter()
        .filter(|u| u.email == "same@example.com")
        .count();
    assert_eq!(matching, 1);
    assert_eq!(store.users.len(), 1);
}

#[test]
fn unknown_or_malformed_tokens_are_forbidden_not_errors() {
    let mut store = CredentialStore::new();
    store
        .create_identity("Ada", "Lovelace", "ada@example.com", NOW)
        .unwrap();

    // Wrong shape entirely.
    let r = present_login_token(&mut store, "not-a-token", NOW).unwrap();
    assert!(matches!(r, PresentOutcome::Forbidden));

    // Right shape, never issued.
    let r = present_login_token(&mut store, "0123456789abcdef", NOW).unwrap();
    assert!(matches!(r, PresentOutcome::Forbidden));

    let r = submit_registration(&mut store, "zzzz", "A", "B", NOW).unwrap();
    assert!(matches!(r, RegisterOutcome::Forbidden));

    assert!(authenticate_session(&store, "0123456789abcdef").is_none());
    assert!(authenticate_session(&store, "<script>").is_none());

    // The refusal surfaces as 403, never as a success or a server error.
    let refusal = AppError(AuthError::TokenNotFound);
    assert_eq!(refusal.status(), 403);
}

#[test]
fn present_login_token_promotes_to_session() {
    let mut store = CredentialStore::new();
    store
        .create_identity("Ada", "Lovelace", "ada@example.com", NOW)
        .unwrap();
    let outcome = request_login(&mut store, "ada@example.com", URL, NOW).unwrap();
    let token = token_of(&outcome.mail.body);

    let grant = match present_login_token(&mut store, &token, NOW).unwrap() {
        PresentOutcome::Authenticated(g) => g,
        PresentOutcome::Forbidden => panic!("issued token was refused"),
    };
    assert_eq!(grant.user.email, "ada@example.com");

    // The granted session authenticates every later request.
    let user = authenticate_session(&store, &grant.session_token).unwrap();
    assert_eq!(user.id, grant.user.id);

    // Login tokens are not consumed by presentation in this design.
    assert_eq!(store.login_tokens.len(), 1);
}

#[test]
fn login_token_roundtrip_returns_bound_email() {
    let mut store = CredentialStore::new();
    let token = store.issue_login_token("Round@Trip.Example", NOW).unwrap();
    let email = store.find_email_by_login_token(&token).unwrap();
    assert_eq!(email, "round@trip.example");
}

#[test]
fn session_token_roundtrip_returns_bound_identity() {
    let mut store = CredentialStore::new();
    let id = store
        .create_identity("Ada", "Lovelace", "ada@example.com", NOW)
        .unwrap();
    let token = store.issue_session_token(id, NOW).unwrap();
    let user = store.find_identity_by_session_token(&token).unwrap();
    assert_eq!(user.id, id);
}

#[test]
fn session_for_unknown_identity_is_refused() {
    let mut store = CredentialStore::new();
    assert_eq!(
        store.issue_session_token(77, NOW),
        Err(AuthError::UnknownIdentity)
    );
    assert_eq!(store.session_tokens.len(), 0);
}

#[test]
fn email_lookup_is_case_normalized() {
    let mut store = CredentialStore::new();
    store
        .create_identity("Ada", "Lovelace", "Ada@Example.COM", NOW)
        .unwrap();
    let user = store.find_identity_by_email("ada@EXAMPLE.com").unwrap();
    assert_eq!(user.email, "ada@example.com");
    assert!(store.find_identity_by_email("other@example.com").is_none());
}
