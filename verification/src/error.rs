//! Error taxonomy of the authentication core, and its translation to HTTP.
//!
//! Every failure is a tagged variant; the surrounding HTTP layer maps it to a
//! status code through [`AppError::status`] and to a response body through
//! [`AppError::body`].  The body is a fixed generic sentence: internal error
//! detail never reaches the response.

use vstd::prelude::*;

verus! {

/// What went wrong inside the authentication core.
#[derive(Clone, Copy, PartialEq, Eq, Structural, Debug)]
pub enum AuthError {
    /// I/O fault in the underlying store, exhaustion of the identifier
    /// space, or failure of the operating system's randomness source.
    Storage,
    /// Registration conflict: an identity with the same normalized email
    /// already exists.
    DuplicateEmail,
    /// A session token was requested for an identity id that does not exist.
    UnknownIdentity,
    /// The presented token is unknown; expected and non-exceptional.
    TokenNotFound,
    /// A freshly generated token collided with a stored one; retryable.
    TokenCollision,
    /// The login email could not be handed to the mail transport.
    MailDelivery,
    /// An externally supplied identifier failed validation.
    BadRequest,
}

/// App-wide error wrapper carried from the core to the HTTP boundary.
#[derive(Clone, Copy, PartialEq, Eq, Structural, Debug)]
pub struct AppError(pub AuthError);

/// The HTTP status that each error kind surfaces as.
pub open spec fn status_of(e: AuthError) -> int {
    match e {
        AuthError::Storage => 500,
        AuthError::DuplicateEmail => 409,
        AuthError::UnknownIdentity => 500,
        AuthError::TokenNotFound => 403,
        AuthError::TokenCollision => 500,
        AuthError::MailDelivery => 500,
        AuthError::BadRequest => 400,
    }
}

/// The one response body every error surfaces as.
pub open spec fn generic_error_body() -> Seq<char> {
    "Error: something went wrong"@
}

impl AppError {
    /// The HTTP status code for this error.
    pub fn status(&self) -> (s: u16)
        ensures
            s as int == status_of(self.0),
    {
        match self.0 {
            AuthError::Storage => 500,
            AuthError::DuplicateEmail => 409,
            AuthError::UnknownIdentity => 500,
            AuthError::TokenNotFound => 403,
            AuthError::TokenCollision => 500,
            AuthError::MailDelivery => 500,
            AuthError::BadRequest => 400,
        }
    }

    /// The response body: the same generic sentence for every error, so no
    /// internal detail can leak to a client.
    pub fn body(&self) -> (b: String)
        ensures
            b@ == generic_error_body(),
    {
        String::from_str("Error: something went wrong")
    }
}

impl core::convert::From<AuthError> for AppError {
    /// Wrap any core error for the HTTP boundary.
    fn from(e: AuthError) -> (r: AppError) {
        AppError(e)
    }
}

impl vstd::std_specs::convert::FromSpecImpl<AuthError> for AppError {
    open spec fn obeys_from_spec() -> bool {
        true
    }

    open spec fn from_spec(e: AuthError) -> AppError {
        AppError(e)
    }
}

} // verus!
