//! The error taxonomy, its HTTP mapping, and identifier validation.

use wlsd::config::{Config, AppConfig, AcmeConfig, EmailConfig, NetConfig};
use wlsd::error::{AppError, AuthError};
use wlsd::events::parse_event_id;
use wlsd::pages::templates;

#[test]
fn error_statuses_follow_the_translation_table() {
    assert_eq!(AppError(AuthError::Storage).status(), 500);
    assert_eq!(AppError(AuthError::DuplicateEmail).status(), 409);
    assert_eq!(AppError(AuthError::UnknownIdentity).status(), 500);
    assert_eq!(AppError(AuthError::TokenNotFound).status(), 403);
    assert_eq!(AppError(AuthError::TokenCollision).status(), 500);
    assert_eq!(AppError(AuthError::MailDelivery).status(), 500);
    assert_eq!(AppError(AuthError::BadRequest).status(), 400);
}

#[test]
fn error_body_never_leaks_detail() {
    let kinds = [
        AuthError::Storage,
        AuthError::DuplicateEmail,
        AuthError::UnknownIdentity,
        AuthError::TokenNotFound,
        AuthError::TokenCollision,
        AuthError::MailDelivery,
        AuthError::BadRequest,
    ];
    for kind in kinds {
        assert_eq!(AppError(kind).body(), "Error: something went wrong");
    }
}

#[test]
fn errors_wrap_through_from() {
    let e: AppError = AuthError::TokenNotFound.into();
    assert_eq!(e, AppError(AuthError::TokenNotFound));
}

#[test]
fn parse_event_id_accepts_digit_strings() {
    assert_eq!(parse_event_id("0"), Ok(0));
    assert_eq!(parse_event_id("42"), Ok(42));
    assert_eq!(parse_event_id("007"), Ok(7));
    assert_eq!(parse_event_id("9223372036854775807"), Ok(i64::MAX));
}

#[test]
fn parse_event_id_refuses_everything_else() {
    let bad = AppError(AuthError::BadRequest);
    assert_eq!(parse_event_id(""), Err(bad));
    assert_eq!(parse_event_id("12a"), Err(bad));
    assert_eq!(parse_event_id("-3"), Err(bad));
    assert_eq!(parse_event_id("+3"), Err(bad));
    assert_eq!(parse_event_id(" 3"), Err(bad));
    // One past i64::MAX overflows.
    assert_eq!(parse_event_id("9223372036854775808"), Err(bad));
    assert_eq!(parse_event_id("99999999999999999999999"), Err(bad));
}

#[test]
fn smtp_scheme_is_checked() {
    let with = EmailConfig {
        smtp_addr: "smtp://mail.example:25".to_string(),
        from: "Radio <radio@example.com>".to_string(),
    };
    let without = EmailConfig {
        smtp_addr: "https://mail.example".to_string(),
        from: "Radio <radio@example.com>".to_string(),
    };
    let short = EmailConfig { smtp_addr: "smtp".to_string(), from: String::new() };
    assert!(with.smtp_addr_has_scheme());
    assert!(!without.smtp_addr_has_scheme());
    assert!(!short.smtp_addr_has_scheme());
}

#[test]
fn config_holds_plain_values() {
    let config = Config {
        app: AppConfig { url: "https://radio.example".to_string(), db: "radio.db".to_string() },
        net: NetConfig {
            http_addr: "0.0.0.0:8080".to_string(),
            https_addr: "0.0.0.0:8443".to_string(),
        },
        acme: Some(AcmeConfig {
            domain: "radio.example".to_string(),
            email: "admin@radio.example".to_string(),
            dir: "acme".to_string(),
            prod: false,
        }),
        email: EmailConfig {
            smtp_addr: "smtp://mail.example:25".to_string(),
            from: "Radio <radio@example.com>".to_string(),
        },
    };
    assert_eq!(config.app.url, "https://radio.example");
    assert!(config.acme.is_some());
    assert!(config.email.smtp_addr_has_scheme());
}

#[test]
fn required_templates_are_fixed() {
    let names = templates();
    assert_eq!(
        names,
        vec![
            "home.tera.html",
            "register.tera.html",
            "event-list.tera.html",
            "event-create.tera.html",
            "event.tera.html",
            "post.tera.html",
            "post-create.tera.html",
        ]
    );
}
