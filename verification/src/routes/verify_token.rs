//! Token verification: whether a presented token is valid right now.

use vstd::prelude::*;

use crate::domain::data_stores::BannedTokenStore;
use crate::domain::error::AuthAPIError;
use crate::utils::auth::{validate_outcome, validate_token, TokenError};

verus! {

/// The body of a token verification request.
#[derive(Debug, Clone, PartialEq, Eq)]
pub struct VerifyTokenRequest {
    pub token: String,
}

/// Tells whether the token of `request` is valid at the second `now`: it is
/// well-formed, signed under `secret`, not expired and not revoked. Every
/// reason for which it is not gives the same `InvalidToken`.
pub fn verify_token<B: BannedTokenStore>(
    request: &VerifyTokenRequest,
    secret: &[u8],
    now: u64,
    banned: &B,
) -> (reply: Result<(), AuthAPIError>)
    ensures
        match reply {
            Ok(()) => validate_outcome(secret@, banned.tokens(), request.token@, now) is Ok,
            Err(AuthAPIError::UnexpectedError) => !B::infallible(),
            Err(error) => {
                &&& error == AuthAPIError::InvalidToken
                &&& validate_outcome(secret@, banned.tokens(), request.token@, now) is Err
            },
        },
{
    match validate_token(request.token.as_str(), secret, now, banned) {
        Ok(_) => Ok(()),
        Err(TokenError::UnexpectedError) => Err(AuthAPIError::UnexpectedError),
        Err(_) => Err(AuthAPIError::InvalidToken),
    }
}

} // verus!
