//! Second-factor verification: the single use of a pending challenge.

use vstd::prelude::*;

use crate::domain::data_stores::{
    verify_and_consume, verify_outcome, ChallengeTable, SecondFactorError, TwoFACodeStore,
};
use crate::domain::email::{is_valid_email, Email};
use crate::domain::error::AuthAPIError;
use crate::domain::login_attempt_id::{is_login_attempt_id, LoginAttemptId};
use crate::domain::two_fa_code::{is_two_fa_code, TwoFACode};
use crate::utils::auth::{generate_auth_token, issue_outcome, TokenError};
use crate::utils::constants::TOKEN_TTL_SECONDS;

verus! {

/// The body of a second-factor verification request.
#[derive(Debug, Clone, PartialEq, Eq)]
pub struct Verify2FARequest {
    pub email: String,
    pub login_attempt_id: String,
    pub code: String,
}

/// Whether the second factor that a request presents is rejected over
/// `challenges`: a field has the wrong shape, the address has no pending
/// challenge, or the attempt id or the code is not the pending one.
pub open spec fn second_factor_rejected(
    challenges: ChallengeTable,
    email: Seq<char>,
    id: Seq<char>,
    code: Seq<char>,
) -> bool {
    ||| !is_valid_email(email)
    ||| !is_login_attempt_id(id)
    ||| !is_two_fa_code(code)
    ||| verify_outcome(challenges, email, id, code) is Err
}

/// Whether nothing but the request can make a verification at the second
/// `now` fail: the store cannot, and a token issued now has an expiry in
/// range.
pub open spec fn verify_2fa_cannot_fail<C: TwoFACodeStore>(now: u64) -> bool {
    C::infallible() && now + TOKEN_TTL_SECONDS <= u64::MAX
}

/// Completes a login that awaits its second factor, at the second `now`.
///
/// The pair of attempt id and code of `request` must be the pending
/// challenge of its address. If it is, the challenge is removed and a fresh
/// session token returned. If it is not, whichever part is wrong, the reply
/// is `SecondFactorRejected` and the challenge stays. No challenge is spent
/// unless a token is returned for it: a clock too close to the end of its
/// range, or a store that fails, gives `UnexpectedError` and changes
/// nothing.
pub fn verify_2fa<C: TwoFACodeStore>(
    codes: &mut C,
    secret: &[u8],
    now: u64,
    request: &Verify2FARequest,
) -> (reply: Result<String, AuthAPIError>)
    ensures
        match reply {
            Ok(token) => {
                &&& !second_factor_rejected(
                    old(codes).challenges(),
                    request.email@,
                    request.login_attempt_id@,
                    request.code@,
                )
                &&& issue_outcome(secret@, request.email@, now) == Ok::<Seq<char>, TokenError>(
                    token@,
                )
                &&& final(codes).challenges() == old(codes).challenges().remove(request.email@)
            },
            Err(AuthAPIError::SecondFactorRejected) => {
                &&& second_factor_rejected(
                    old(codes).challenges(),
                    request.email@,
                    request.login_attempt_id@,
                    request.code@,
                )
                &&& final(codes).challenges() == old(codes).challenges()
            },
            Err(error) => {
                &&& error == AuthAPIError::UnexpectedError
                &&& !verify_2fa_cannot_fail::<C>(now)
                &&& final(codes).challenges() == old(codes).challenges()
            },
        },
{
    let email = match Email::parse(request.email.as_str()) {
        Ok(email) => email,
        Err(_) => {
            return Err(AuthAPIError::SecondFactorRejected);
        },
    };
    let login_attempt_id = match LoginAttemptId::parse(request.login_attempt_id.as_str()) {
        Ok(login_attempt_id) => login_attempt_id,
        Err(_) => {
            return Err(AuthAPIError::SecondFactorRejected);
        },
    };
    let two_fa_code = match TwoFACode::parse(request.code.as_str()) {
        Ok(two_fa_code) => two_fa_code,
        Err(_) => {
            return Err(AuthAPIError::SecondFactorRejected);
        },
    };
    if now > u64::MAX - TOKEN_TTL_SECONDS {
        return Err(AuthAPIError::UnexpectedError);
    }
    match verify_and_consume(codes, &email, &login_attempt_id, &two_fa_code) {
        Ok(()) => {},
        Err(SecondFactorError::UnexpectedError) => {
            return Err(AuthAPIError::UnexpectedError);
        },
        Err(_) => {
            return Err(AuthAPIError::SecondFactorRejected);
        },
    }
    match generate_auth_token(&email, secret, now) {
        Ok(token) => Ok(token),
        Err(_) => Err(AuthAPIError::UnexpectedError),
    }
}

} // verus!
