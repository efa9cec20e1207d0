//! The user record and the states that a login moves it through.

use std::marker::PhantomData;
use vstd::prelude::*;

use crate::domain::data_stores::{
    issue_challenge, validate_user_outcome, TwoFACodeStore, UserStore, UserStoreError,
};
use crate::domain::email::Email;
use crate::domain::error::AuthAPIError;
use crate::domain::login_attempt_id::LoginAttemptId;
use crate::domain::password::{Password, PasswordHash, PasswordHashView};
use crate::domain::two_fa_code::TwoFACode;
use crate::routes::login::{LoginResponse, TwoFactorAuthResponse};
use crate::utils::auth::{generate_auth_token, issue_outcome, TokenError};

verus! {

/// The state of a user whose credentials have not been checked.
#[derive(Debug, Clone, Copy, PartialEq, Eq)]
pub enum UnverifiedUser {
    Unverified,
}

/// The state of a user whose credentials have been checked against the
/// credential store.
#[derive(Debug, Clone, Copy, PartialEq, Eq)]
pub enum VerifiedUser {
    Verified,
}

/// The states that a [`User`] can be in.
pub trait UserStatus {

}

impl UserStatus for UnverifiedUser {

}

impl UserStatus for VerifiedUser {

}

/// What a [`User`] holds, whatever its state.
pub struct UserView {
    pub email: Seq<char>,
    pub password_hash: PasswordHashView,
    pub requires_2fa: bool,
}

/// A registered user: the address that identifies it, the hash of its
/// password, and whether its logins need a second factor. The state `T`
/// records whether the credentials presented with it have been checked.
#[derive(Debug, PartialEq)]
pub struct User<T: UserStatus> {
    pub email: Email,
    pub password_hash: PasswordHash,
    pub requires_2fa: bool,
    marker: PhantomData<T>,
}

impl<T: UserStatus> View for User<T> {
    type V = UserView;

    closed spec fn view(&self) -> UserView {
        UserView {
            email: self.email@,
            password_hash: self.password_hash@,
            requires_2fa: self.requires_2fa,
        }
    }
}

impl<T: UserStatus> User<T> {
    /// The address that identifies the user.
    pub fn email(&self) -> (email: &Email)
        ensures
            email@ == self@.email,
    {
        &self.email
    }

    /// The hash of the user's password.
    pub fn password_hash(&self) -> (password_hash: &PasswordHash)
        ensures
            password_hash@ == self@.password_hash,
    {
        &self.password_hash
    }

    /// Whether the user's logins need a second factor.
    pub fn requires_2fa(&self) -> (requires_2fa: bool)
        ensures
            requires_2fa == self@.requires_2fa,
    {
        self.requires_2fa
    }

    /// The three values that make up the user.
    pub fn into_parts(self) -> (parts: (Email, PasswordHash, bool))
        ensures
            parts.0@ == self@.email,
            parts.1@ == self@.password_hash,
            parts.2 == self@.requires_2fa,
    {
        (self.email, self.password_hash, self.requires_2fa)
    }
}

impl<T: UserStatus> Clone for User<T> {
    fn clone(&self) -> (copy: Self)
        ensures
            copy@ == self@,
    {
        User {
            email: self.email.clone(),
            password_hash: self.password_hash.clone(),
            requires_2fa: self.requires_2fa,
            marker: PhantomData,
        }
    }
}

/// The subject line of the message that carries a code.
pub open spec fn two_factor_subject() -> Seq<char> {
    "2FA Code"@
}

/// The text that tells a caller that a second factor is pending.
pub open spec fn two_factor_message() -> Seq<char> {
    "2FA required"@
}

/// A second-factor challenge that has been stored and must now reach its
/// user out of band: the message goes to `recipient` and carries `code`;
/// `login_attempt_id` goes back to the caller once the message is sent.
#[derive(Debug, Clone, PartialEq)]
pub struct TwoFactorNotice {
    pub recipient: Email,
    pub login_attempt_id: LoginAttemptId,
    pub code: TwoFACode,
}

impl TwoFactorNotice {
    /// The subject line of the message.
    pub fn subject(&self) -> (subject: &'static str)
        ensures
            subject@ == two_factor_subject(),
    {
        "2FA Code"
    }

    /// The body of the message: the code.
    pub fn content(&self) -> (content: &str)
        ensures
            content@ == self.code@,
    {
        self.code.as_ref()
    }

    /// Ends the step that [`User::handle_2fa`] began, once the notifier has
    /// tried to send the message. A message that went out gives the reply
    /// that carries the attempt id; one that did not fails the login with
    /// `UnexpectedError`. The stored challenge is left as it is either way.
    pub fn delivered(self, sent: bool) -> (reply: Result<LoginResponse, AuthAPIError>)
        ensures
            match reply {
                Ok(LoginResponse::TwoFactorAuth(body)) => {
                    &&& sent
                    &&& body.message@ == two_factor_message()
                    &&& body.login_attempt_id@ == self.login_attempt_id@
                },
                Ok(LoginResponse::RegularAuth) => false,
                Err(error) => !sent && error == AuthAPIError::UnexpectedError,
            },
    {
        if sent {
            Ok(
                LoginResponse::TwoFactorAuth(
                    TwoFactorAuthResponse {
                        message: "2FA required".to_string(),
                        login_attempt_id: self.login_attempt_id.as_ref().to_string(),
                    },
                ),
            )
        } else {
            Err(AuthAPIError::UnexpectedError)
        }
    }
}

impl User<UnverifiedUser> {
    /// A new user whose password is hashed under a freshly drawn salt.
    pub fn new(email: Email, password: Password, requires_2fa: bool) -> (user: Self)
        ensures
            user@.email == email@,
            user@.requires_2fa == requires_2fa,
            user@.password_hash.accepts(password@),
    {
        let password_hash = PasswordHash::new(&password);
        User { email, password_hash, requires_2fa, marker: PhantomData }
    }

    /// A new user with the given hash of its password.
    pub fn with_password_hash(
        email: Email,
        password_hash: PasswordHash,
        requires_2fa: bool,
    ) -> (user: Self)
        ensures
            user@.email == email@,
            user@.password_hash == password_hash@,
            user@.requires_2fa == requires_2fa,
    {
        User { email, password_hash, requires_2fa, marker: PhantomData }
    }

    /// Checks `password` for this user's address against the credential
    /// store. Credentials that the store accepts move the user to the
    /// verified state, otherwise unchanged. An unknown address and a wrong
    /// password both give `IncorrectCredentials`; a store that fails gives
    /// `UnexpectedError`.
    pub fn validate<S: UserStore>(self, store: &S, password: &Password) -> (checked: Result<
        User<VerifiedUser>,
        AuthAPIError,
    >)
        ensures
            match checked {
                Ok(user) => {
                    &&& user@ == self@
                    &&& validate_user_outcome(store.users(), self@.email, password@) is Ok
                },
                Err(AuthAPIError::UnexpectedError) => !S::infallible(),
                Err(error) => {
                    &&& error == AuthAPIError::IncorrectCredentials
                    &&& validate_user_outcome(store.users(), self@.email, password@) is Err
                },
            },
    {
        match store.validate_user(&self.email, password) {
            Ok(()) => Ok(
                User {
                    email: self.email,
                    password_hash: self.password_hash,
                    requires_2fa: self.requires_2fa,
                    marker: PhantomData,
                },
            ),
            Err(UserStoreError::UnexpectedError) => Err(AuthAPIError::UnexpectedError),
            Err(_) => Err(AuthAPIError::IncorrectCredentials),
        }
    }
}

impl User<VerifiedUser> {
    /// Begins the second factor for `email`: mints an attempt id and a code,
    /// stores them as the pending challenge of `email` in place of any
    /// earlier one, and returns the notice to send. The caller sends it and
    /// gives the result to [`TwoFactorNotice::delivered`]. Only a store that
    /// fails makes this fail, and then nothing has changed.
    pub fn handle_2fa<C: TwoFACodeStore>(email: &Email, codes: &mut C) -> (step: Result<
        TwoFactorNotice,
        AuthAPIError,
    >)
        ensures
            match step {
                Ok(notice) => {
                    &&& notice.recipient@ == email@
                    &&& final(codes).challenges() == old(codes).challenges().insert(
                        email@,
                        (notice.login_attempt_id@, notice.code@),
                    )
                },
                Err(error) => {
                    &&& error == AuthAPIError::UnexpectedError
                    &&& !C::infallible()
                    &&& final(codes).challenges() == old(codes).challenges()
                },
            },
    {
        match issue_challenge(codes, email) {
            Ok((login_attempt_id, code)) => Ok(
                TwoFactorNotice { recipient: email.clone(), login_attempt_id, code },
            ),
            Err(_) => Err(AuthAPIError::UnexpectedError),
        }
    }

    /// Authenticates `email` without a second factor: issues the session
    /// token that goes out with the reply. The one failure is an expiry
    /// that does not fit the clock's range, reported as `UnexpectedError`.
    pub fn handle_no_2fa(email: &Email, secret: &[u8], now: u64) -> (step: Result<
        (String, LoginResponse),
        AuthAPIError,
    >)
        ensures
            match step {
                Ok(reply) => {
                    &&& issue_outcome(secret@, email@, now) == Ok::<Seq<char>, TokenError>(
                        reply.0@,
                    )
                    &&& reply.1 is RegularAuth
                },
                Err(error) => {
                    &&& error == AuthAPIError::UnexpectedError
                    &&& issue_outcome(secret@, email@, now) is Err
                },
            },
    {
        match generate_auth_token(email, secret, now) {
            Ok(token) => Ok((token, LoginResponse::RegularAuth)),
            Err(_) => Err(AuthAPIError::UnexpectedError),
        }
    }
}

} // verus!
