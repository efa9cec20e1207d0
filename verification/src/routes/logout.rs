//! Logout: the end of a session, by revoking its token.

use vstd::prelude::*;

use crate::domain::data_stores::BannedTokenStore;
use crate::domain::error::AuthAPIError;
use crate::utils::auth::{invalidate_token, validate_outcome, validate_token, TokenError};

verus! {

/// Ends the session that `token` stands for, at the second `now`.
///
/// A request without token is refused as `MissingToken`, and one whose
/// token is not valid as `InvalidToken`. A valid token is revoked: from
/// then on it is refused everywhere, although it has not expired. Nothing
/// is revoked unless the reply is `Ok`.
pub fn logout<B: BannedTokenStore>(
    token: Option<&str>,
    secret: &[u8],
    now: u64,
    banned: &mut B,
) -> (reply: Result<(), AuthAPIError>)
    ensures
        match reply {
            Ok(()) => {
                &&& token matches Some(text)
                &&& validate_outcome(secret@, old(banned).tokens(), text@, now) is Ok
                &&& final(banned).tokens() == old(banned).tokens().insert(text@)
            },
            Err(AuthAPIError::MissingToken) => {
                &&& token is None
                &&& final(banned).tokens() == old(banned).tokens()
            },
            Err(AuthAPIError::InvalidToken) => {
                &&& token matches Some(text)
                &&& validate_outcome(secret@, old(banned).tokens(), text@, now) is Err
                &&& final(banned).tokens() == old(banned).tokens()
            },
            Err(error) => {
                &&& error == AuthAPIError::UnexpectedError
                &&& token is Some
                &&& !B::infallible()
                &&& final(banned).tokens() == old(banned).tokens()
            },
        },
{
    let token = match token {
        Some(token) => token,
        None => {
            return Err(AuthAPIError::MissingToken);
        },
    };
    match validate_token(token, secret, now, banned) {
        Ok(_) => {},
        Err(TokenError::UnexpectedError) => {
            return Err(AuthAPIError::UnexpectedError);
        },
        Err(_) => {
            return Err(AuthAPIError::InvalidToken);
        },
    }
    match invalidate_token(token, banned) {
        Ok(()) => Ok(()),
        Err(_) => Err(AuthAPIError::UnexpectedError),
    }
}

} // verus!
