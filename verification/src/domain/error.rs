//! The error kinds that leave the service, and how each is reported.

use vstd::prelude::*;

verus! {

/// The failures that a request can end in. Several inner causes are merged
/// into one kind on purpose, so that a reply does not tell which check
/// failed.
#[derive(Debug, Clone, Copy, PartialEq, Eq, Structural)]
pub enum AuthAPIError {
    /// Signup met an email that is already registered.
    UserAlreadyExists,
    /// An email or password of the wrong shape.
    InvalidCredentials,
    /// Well-formed credentials that match no user: unknown email and wrong
    /// password alike.
    IncorrectCredentials,
    /// No pending challenge, a stale attempt id, or a wrong code.
    SecondFactorRejected,
    /// No session token was presented.
    MissingToken,
    /// The token is malformed, wrongly signed, expired or revoked.
    InvalidToken,
    /// A store or the notifier failed.
    UnexpectedError,
}

/// The body of an error reply.
#[derive(Debug, Clone, PartialEq, Eq)]
pub struct ErrorResponse {
    pub error: String,
}

impl AuthAPIError {
    /// The HTTP status that reports this error.
    pub open spec fn status(self) -> u16 {
        match self {
            AuthAPIError::UserAlreadyExists => 409,
            AuthAPIError::InvalidCredentials => 400,
            AuthAPIError::IncorrectCredentials => 401,
            AuthAPIError::SecondFactorRejected => 401,
            AuthAPIError::MissingToken => 400,
            AuthAPIError::InvalidToken => 401,
            AuthAPIError::UnexpectedError => 500,
        }
    }

    /// The text that reports this error.
    pub open spec fn text(self) -> Seq<char> {
        match self {
            AuthAPIError::UserAlreadyExists => "User already exists"@,
            AuthAPIError::InvalidCredentials => "Invalid credentials"@,
            AuthAPIError::IncorrectCredentials => "Incorrect credentials"@,
            AuthAPIError::SecondFactorRejected => "Incorrect credentials"@,
            AuthAPIError::MissingToken => "Missing auth token"@,
            AuthAPIError::InvalidToken => "Invalid auth token"@,
            AuthAPIError::UnexpectedError => "Unexpected error"@,
        }
    }

    /// Computes [`AuthAPIError::status`].
    pub fn status_code(&self) -> (code: u16)
        ensures
            code == self.status(),
    {
        match self {
            AuthAPIError::UserAlreadyExists => 409,
            AuthAPIError::InvalidCredentials => 400,
            AuthAPIError::IncorrectCredentials => 401,
            AuthAPIError::SecondFactorRejected => 401,
            AuthAPIError::MissingToken => 400,
            AuthAPIError::InvalidToken => 401,
            AuthAPIError::UnexpectedError => 500,
        }
    }

    /// Computes [`AuthAPIError::text`].
    pub fn message(&self) -> (message: &'static str)
        ensures
            message@ == self.text(),
    {
        match self {
            AuthAPIError::UserAlreadyExists => "User already exists",
            AuthAPIError::InvalidCredentials => "Invalid credentials",
            AuthAPIError::IncorrectCredentials => "Incorrect credentials",
            AuthAPIError::SecondFactorRejected => "Incorrect credentials",
            AuthAPIError::MissingToken => "Missing auth token",
            AuthAPIError::InvalidToken => "Invalid auth token",
            AuthAPIError::UnexpectedError => "Unexpected error",
        }
    }

    /// The reply body for this error.
    pub fn response(&self) -> (body: ErrorResponse)
        ensures
            body.error@ == self.text(),
    {
        ErrorResponse { error: self.message().to_string() }
    }
}

} // verus!
