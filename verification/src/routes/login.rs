//! Login: the credential check, then a second factor or a session token.

use vstd::prelude::*;

use crate::domain::data_stores::{
    validate_user_outcome, TwoFACodeStore, UserStore, UserStoreError, UserTable,
};
use crate::domain::email::{is_valid_email, Email};
use crate::domain::error::AuthAPIError;
use crate::domain::password::{is_valid_password, Password};
use crate::domain::user::{TwoFactorNotice, User, VerifiedUser};
use crate::utils::auth::{issue_outcome, TokenError};
use crate::utils::constants::TOKEN_TTL_SECONDS;

verus! {

/// The body of a login request.
#[derive(Debug, Clone, PartialEq, Eq)]
pub struct LoginRequest {
    pub email: String,
    pub password: String,
}

/// The body of the reply to a login that awaits its second factor.
#[derive(Debug, Clone, PartialEq, Eq)]
pub struct TwoFactorAuthResponse {
    pub message: String,
    pub login_attempt_id: String,
}

/// The body of the reply to a successful login.
#[derive(Debug, Clone, PartialEq, Eq)]
pub enum LoginResponse {
    /// The caller is authenticated; the session token goes with the reply.
    RegularAuth,
    /// A second factor is pending.
    TwoFactorAuth(TwoFactorAuthResponse),
}

impl LoginResponse {
    /// The HTTP status that goes with this reply.
    pub open spec fn status(self) -> u16 {
        match self {
            LoginResponse::RegularAuth => 200,
            LoginResponse::TwoFactorAuth(_) => 206,
        }
    }

    /// Computes [`LoginResponse::status`].
    pub fn status_code(&self) -> (code: u16)
        ensures
            code == self.status(),
    {
        match self {
            LoginResponse::RegularAuth => 200,
            LoginResponse::TwoFactorAuth(_) => 206,
        }
    }
}

/// Where a login stands once the credentials have been accepted.
#[derive(Debug, PartialEq)]
pub enum LoginStep {
    /// The caller is authenticated: the session token and the reply.
    Authenticated { token: String, response: LoginResponse },
    /// A challenge is stored and its notice must be sent; the login ends
    /// with [`TwoFactorNotice::delivered`]. The caller is not authenticated
    /// yet.
    SecondFactorPending(TwoFactorNotice),
}

/// Why a login with `email` and `password` is refused over `users`, if it
/// is: credentials of the wrong shape come before credentials that match
/// no user, and an unknown address is not told from a wrong password.
pub open spec fn login_refusal(users: UserTable, email: Seq<char>, password: Seq<char>) -> Option<
    AuthAPIError,
> {
    if !is_valid_email(email) || !is_valid_password(password) {
        Some(AuthAPIError::InvalidCredentials)
    } else if validate_user_outcome(users, email, password) is Err {
        Some(AuthAPIError::IncorrectCredentials)
    } else {
        None
    }
}

/// Whether nothing but the request can make a login at the second `now`
/// fail: the two stores cannot, and a token issued now has an expiry in
/// range.
pub open spec fn login_cannot_fail<S: UserStore, C: TwoFACodeStore>(now: u64) -> bool {
    S::infallible() && C::infallible() && now + TOKEN_TTL_SECONDS <= u64::MAX
}

/// A login does not tell an unknown address from a wrong password: for
/// credentials of the right shape, every failure of the credential store is
/// refused in the same way, as incorrect credentials.
pub proof fn lemma_login_merges_credential_failures(
    users: UserTable,
    email: Seq<char>,
    password: Seq<char>,
)
    requires
        is_valid_email(email),
        is_valid_password(password),
    ensures
        validate_user_outcome(users, email, password) is Err <==> login_refusal(
            users,
            email,
            password,
        ) == Some(AuthAPIError::IncorrectCredentials),
        validate_user_outcome(users, email, password) is Ok <==> login_refusal(
            users,
            email,
            password,
        ) is None,
{
}

/// Logs in with the credentials of `request` at the second `now`.
///
/// Credentials that the store accepts lead to one of two steps. A user
/// without second factor is authenticated at once, with a fresh session
/// token. For a user with second factor a new challenge replaces any
/// pending one, and the notice to send is returned. A login that is refused
/// or fails leaves the pending challenges as they were.
pub fn login<S: UserStore, C: TwoFACodeStore>(
    users: &S,
    codes: &mut C,
    secret: &[u8],
    now: u64,
    request: &LoginRequest,
) -> (step: Result<LoginStep, AuthAPIError>)
    ensures
        match step {
            Ok(LoginStep::Authenticated { token, response }) => {
                &&& login_refusal(users.users(), request.email@, request.password@) is None
                &&& !users.users()[request.email@].requires_2fa
                &&& issue_outcome(secret@, request.email@, now) == Ok::<Seq<char>, TokenError>(
                    token@,
                )
                &&& response is RegularAuth
                &&& final(codes).challenges() == old(codes).challenges()
            },
            Ok(LoginStep::SecondFactorPending(notice)) => {
                &&& login_refusal(users.users(), request.email@, request.password@) is None
                &&& users.users()[request.email@].requires_2fa
                &&& notice.recipient@ == request.email@
                &&& final(codes).challenges() == old(codes).challenges().insert(
                    request.email@,
                    (notice.login_attempt_id@, notice.code@),
                )
            },
            Err(AuthAPIError::UnexpectedError) => {
                &&& !login_cannot_fail::<S, C>(now)
                &&& final(codes).challenges() == old(codes).challenges()
            },
            Err(error) => {
                &&& login_refusal(users.users(), request.email@, request.password@) == Some(error)
                &&& final(codes).challenges() == old(codes).challenges()
            },
        },
{
    let email = match Email::parse(request.email.as_str()) {
        Ok(email) => email,
        Err(_) => {
            return Err(AuthAPIError::InvalidCredentials);
        },
    };
    let password = match Password::parse(request.password.as_str()) {
        Ok(password) => password,
        Err(_) => {
            return Err(AuthAPIError::InvalidCredentials);
        },
    };
    match users.validate_user(&email, &password) {
        Ok(()) => {},
        Err(UserStoreError::UnexpectedError) => {
            return Err(AuthAPIError::UnexpectedError);
        },
        Err(_) => {
            return Err(AuthAPIError::IncorrectCredentials);
        },
    }
    let user = match users.get_user(&email) {
        Ok(user) => user,
        Err(UserStoreError::UnexpectedError) => {
            return Err(AuthAPIError::UnexpectedError);
        },
        Err(_) => {
            return Err(AuthAPIError::IncorrectCredentials);
        },
    };
    if user.requires_2fa() {
        match User::<VerifiedUser>::handle_2fa(&email, codes) {
            Ok(notice) => Ok(LoginStep::SecondFactorPending(notice)),
            Err(error) => Err(error),
        }
    } else {
        match User::<VerifiedUser>::handle_no_2fa(&email, secret, now) {
            Ok((token, response)) => Ok(LoginStep::Authenticated { token, response }),
            Err(error) => Err(error),
        }
    }
}

} // verus!
