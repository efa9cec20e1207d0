//! Signup: registering a user under an address that is still free.

use vstd::prelude::*;

use crate::domain::data_stores::{UserStore, UserStoreError, UserTable};
use crate::domain::email::{is_valid_email, Email};
use crate::domain::error::AuthAPIError;
use crate::domain::password::{is_valid_password, Password};
use crate::domain::user::User;

verus! {

/// The body of a signup request.
#[derive(Debug, Clone, PartialEq, Eq)]
pub struct SignupRequest {
    pub email: String,
    pub password: String,
    pub requires_2fa: bool,
}

/// The body of the reply to a successful signup.
#[derive(Debug, Clone, PartialEq, Eq)]
pub struct SignupResponse {
    pub message: String,
}

/// The text that confirms a signup.
pub open spec fn signup_message() -> Seq<char> {
    "User created successfully!"@
}

impl SignupResponse {
    /// The HTTP status that goes with this reply.
    pub fn status_code(&self) -> (code: u16)
        ensures
            code == 201,
    {
        201
    }
}

/// Why a signup with `email` and `password` is refused over `users`, if it
/// is: credentials of the wrong shape come before an address that is taken.
pub open spec fn signup_refusal(users: UserTable, email: Seq<char>, password: Seq<char>) -> Option<
    AuthAPIError,
> {
    if !is_valid_email(email) || !is_valid_password(password) {
        Some(AuthAPIError::InvalidCredentials)
    } else if users.contains_key(email) {
        Some(AuthAPIError::UserAlreadyExists)
    } else {
        None
    }
}

/// Registers the user that `request` describes. On success the store holds
/// one more user, filed under the requested address, whose hash accepts the
/// requested password; every other user is as before. A refused signup
/// changes nothing, and neither does one that fails because the store did.
pub fn signup<S: UserStore>(users: &mut S, request: &SignupRequest) -> (reply: Result<
    SignupResponse,
    AuthAPIError,
>)
    ensures
        match reply {
            Ok(body) => {
                let added = final(users).users()[request.email@];
                &&& signup_refusal(old(users).users(), request.email@, request.password@) is None
                &&& body.message@ == signup_message()
                &&& final(users).users() == old(users).users().insert(request.email@, added)
                &&& added.email == request.email@
                &&& added.requires_2fa == request.requires_2fa
                &&& added.password_hash.accepts(request.password@)
            },
            Err(AuthAPIError::UnexpectedError) => {
                &&& !S::infallible()
                &&& final(users).users() == old(users).users()
            },
            Err(error) => {
                &&& signup_refusal(old(users).users(), request.email@, request.password@) == Some(
                    error,
                )
                &&& final(users).users() == old(users).users()
            },
        },
{
    let email = match Email::parse(request.email.as_str()) {
        Ok(email) => email,
        Err(_) => {
            return Err(AuthAPIError::InvalidCredentials);
        },
    };
    let password = match Password::parse(request.password.as_str()) {
        Ok(password) => password,
        Err(_) => {
            return Err(AuthAPIError::InvalidCredentials);
        },
    };
    match users.get_user(&email) {
        Ok(_) => {
            return Err(AuthAPIError::UserAlreadyExists);
        },
        Err(UserStoreError::UnexpectedError) => {
            return Err(AuthAPIError::UnexpectedError);
        },
        Err(_) => {},
    }
    let user = User::new(email, password, request.requires_2fa);
    match users.add_user(user) {
        Ok(()) => Ok(SignupResponse { message: "User created successfully!".to_string() }),
        Err(UserStoreError::UserAlreadyExists) => Err(AuthAPIError::UserAlreadyExists),
        Err(_) => Err(AuthAPIError::UnexpectedError),
    }
}

} // verus!
