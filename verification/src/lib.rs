//! Core of a small passwordless-authentication web service.
//!
//! The service lets a visitor log in with nothing but an email address: a
//! one-time login token is mailed out as a link, and presenting that token
//! either opens a session (for a registered identity) or leads to a
//! registration form whose submission creates the identity and then opens a
//! session.  This crate holds the verified heart of that flow:
//!
//! - [`token`]: generation and shape of the opaque bearer tokens;
//! - [`store`]: the credential store relating identities, login tokens and
//!   session tokens, with its uniqueness and referential-integrity invariants;
//! - [`flow`]: the controller that drives request -> verify -> promote;
//! - [`error`]: the error taxonomy and its mapping to HTTP statuses;
//! - [`laws`]: proofs of the properties the flow is meant to guarantee;
//! - [`text`], [`events`], [`config`], [`pages`]: case normalization,
//!   identifier validation, configuration data and the template manifest.
//!
//! Transport concerns (HTTP routing, SMTP delivery, persistence on disk,
//! TLS) live outside this crate and hand plain values in and out.

pub mod config;
pub mod error;
pub mod events;
pub mod flow;
pub mod laws;
pub mod pages;
pub mod store;
pub mod text;
pub mod token;
