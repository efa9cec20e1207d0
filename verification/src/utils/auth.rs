//! The token service: issuing, validating and revoking session tokens.
//!
//! A token is text of three fields joined by `.`: the signature, as 64
//! lowercase hexadecimal digits; the expiry in seconds, as the 16
//! hexadecimal digits of its eight little-endian bytes; and the subject's
//! email. The signature is the HMAC-SHA256 tag, under the service's secret,
//! of the text that follows it: the expiry, the `.` and the subject.

use vstd::bytes::{
    lemma_auto_spec_u64_to_from_le_bytes, spec_u64_from_le_bytes, spec_u64_to_le_bytes,
    u64_from_le_bytes, u64_to_le_bytes,
};
use vstd::prelude::*;
use vstd::slice::slice_subrange;
use vstd::string::*;
use vstd::utf8::encode_utf8;

use crate::domain::data_stores::BannedTokenStore;
use crate::domain::email::{is_valid_email, Email};
use crate::utils::constants::TOKEN_TTL_SECONDS;
use crate::utils::crypto::{constant_time_eq, hmac_sha256, hmac_sha256_tag, HMAC_SHA256_LEN};
use crate::utils::text::{
    chars_of, from_hex, hex_decode, hex_encode, is_hex_encoding, lemma_hex_roundtrip, to_hex,
};

verus! {

/// The number of characters of a token's signature field.
pub const SIGNATURE_FIELD_LEN: usize = 64;

/// The number of characters of a token's expiry field.
pub const EXPIRY_FIELD_LEN: usize = 16;

/// The index of the first character of the expiry field.
pub const EXPIRY_FIELD_START: usize = 65;

/// The index of the first character of the subject.
pub const SUBJECT_START: usize = 82;

/// What a valid token states: who it was issued to, and the second at which
/// it stops being valid.
#[derive(Debug, PartialEq)]
pub struct Claims {
    pub sub: Email,
    pub exp: u64,
}

/// The reasons for which a token is refused, in the order in which they are
/// looked for, and the failure of the revocation store.
#[derive(Debug, Clone, Copy, PartialEq, Eq, Structural)]
pub enum TokenError {
    /// The text does not have the three fields of a token.
    Malformed,
    /// The signature is not the one that the secret gives for the rest.
    SignatureInvalid,
    /// The expiry has been reached.
    Expired,
    /// The token was revoked before it expired.
    Revoked,
    /// The expiry of a new token is out of range, or the store failed.
    UnexpectedError,
}

/// The signed part of a token for `subject` that expires at `expiry`.
pub open spec fn token_payload(subject: Seq<char>, expiry: u64) -> Seq<char> {
    hex_encode(spec_u64_to_le_bytes(expiry)) + seq!['.'] + subject
}

/// The signature of `payload` under `secret`: its HMAC-SHA256 tag. A tag is
/// 32 bytes long; the definition pins that length, so that what is said of
/// tokens needs no side condition on the hash.
pub open spec fn token_signature(secret: Seq<u8>, payload: Seq<char>) -> Seq<u8> {
    let tag = hmac_sha256(secret, encode_utf8(payload));
    if tag.len() == HMAC_SHA256_LEN {
        tag
    } else {
        Seq::new(HMAC_SHA256_LEN as nat, |i: int| 0u8)
    }
}

/// The token for `subject` that expires at `expiry`, signed under `secret`.
pub open spec fn token_text(secret: Seq<u8>, subject: Seq<char>, expiry: u64) -> Seq<char> {
    hex_encode(token_signature(secret, token_payload(subject, expiry))) + seq!['.']
        + token_payload(subject, expiry)
}

/// Whether `token` has the three fields of a token, whatever they say.
pub open spec fn is_well_formed_token(token: Seq<char>) -> bool {
    &&& token.len() >= SUBJECT_START
    &&& is_hex_encoding(token.subrange(0, SIGNATURE_FIELD_LEN as int))
    &&& token[SIGNATURE_FIELD_LEN as int] == '.'
    &&& is_hex_encoding(token.subrange(EXPIRY_FIELD_START as int, SUBJECT_START - 1))
    &&& token[SUBJECT_START - 1] == '.'
    &&& is_valid_email(token.skip(SUBJECT_START as int))
}

/// The signature that a well-formed `token` carries.
pub open spec fn carried_signature(token: Seq<char>) -> Seq<u8> {
    hex_decode(token.subrange(0, SIGNATURE_FIELD_LEN as int))
}

/// The part of a well-formed `token` that its signature covers.
pub open spec fn signed_part(token: Seq<char>) -> Seq<char> {
    token.skip(EXPIRY_FIELD_START as int)
}

/// The expiry that a well-formed `token` states.
pub open spec fn token_expiry(token: Seq<char>) -> u64 {
    spec_u64_from_le_bytes(hex_decode(token.subrange(EXPIRY_FIELD_START as int, SUBJECT_START - 1)))
}

/// The subject that a well-formed `token` states.
pub open spec fn token_subject(token: Seq<char>) -> Seq<char> {
    token.skip(SUBJECT_START as int)
}

/// What issuing a token for `subject` at the second `now` gives: the token
/// that expires a fixed time later, unless that time is out of range.
pub open spec fn issue_outcome(secret: Seq<u8>, subject: Seq<char>, now: u64) -> Result<
    Seq<char>,
    TokenError,
> {
    if now + TOKEN_TTL_SECONDS <= u64::MAX {
        Ok(token_text(secret, subject, (now + TOKEN_TTL_SECONDS) as u64))
    } else {
        Err(TokenError::UnexpectedError)
    }
}

/// What validating `token` at the second `now` gives, with `revoked` the
/// tokens that were revoked: the subject and the expiry of a valid token,
/// or the first check that fails. The shape is checked first, then the
/// signature, then the expiry, then revocation.
pub open spec fn validate_outcome(
    secret: Seq<u8>,
    revoked: Set<Seq<char>>,
    token: Seq<char>,
    now: u64,
) -> Result<(Seq<char>, u64), TokenError> {
    if !is_well_formed_token(token) {
        Err(TokenError::Malformed)
    } else if carried_signature(token) != token_signature(secret, signed_part(token)) {
        Err(TokenError::SignatureInvalid)
    } else if token_expiry(token) <= now {
        Err(TokenError::Expired)
    } else if revoked.contains(token) {
        Err(TokenError::Revoked)
    } else {
        Ok((token_subject(token), token_expiry(token)))
    }
}

/// The fields of a well-formed token, and the text that was signed.
struct TokenFields {
    signature: Vec<u8>,
    signed: Vec<u8>,
    expiry: u64,
    subject: Email,
}

/// Splits `token` into its fields, or returns `None` where it is not
/// well-formed.
fn split_token(token: &str) -> (fields: Option<TokenFields>)
    ensures
        fields is Some <==> is_well_formed_token(token@),
        fields matches Some(parts) ==> {
            &&& parts.signature@ == carried_signature(token@)
            &&& parts.signed@ == encode_utf8(signed_part(token@))
            &&& parts.expiry == token_expiry(token@)
            &&& parts.subject@ == token_subject(token@)
        },
{
    let chars = chars_of(token);
    let n: usize = chars.len();
    if n < SUBJECT_START {
        return None;
    }
    if chars[SIGNATURE_FIELD_LEN] != '.' || chars[SUBJECT_START - 1] != '.' {
        return None;
    }
    let signature = match from_hex(slice_subrange(chars.as_slice(), 0, SIGNATURE_FIELD_LEN)) {
        Some(bytes) => bytes,
        None => {
            return None;
        },
    };
    let expiry_bytes = match from_hex(
        slice_subrange(chars.as_slice(), EXPIRY_FIELD_START, SUBJECT_START - 1),
    ) {
        Some(bytes) => bytes,
        None => {
            return None;
        },
    };
    let subject = match Email::parse(token.substring_char(SUBJECT_START, n)) {
        Ok(email) => email,
        Err(_) => {
            return None;
        },
    };
    let expiry = u64_from_le_bytes(expiry_bytes.as_slice());
    let signed = token.substring_char(EXPIRY_FIELD_START, n).as_bytes_vec();
    Some(TokenFields { signature, signed, expiry, subject })
}

/// Appends the `.` that separates the fields of a token.
fn append_separator(text: &mut String)
    ensures
        final(text)@ == old(text)@ + seq!['.'],
{
    proof {
        reveal_strlit(".");
        assert("."@ =~= seq!['.']);
    }
    text.append(".");
}

/// Renders the signed part of a token.
fn payload_for(subject: &Email, expiry: u64) -> (payload: String)
    ensures
        payload@ == token_payload(subject@, expiry),
{
    let bytes = u64_to_le_bytes(expiry);
    let mut payload = to_hex(bytes.as_slice());
    append_separator(&mut payload);
    payload.append(subject.as_ref());
    payload
}

/// Issues a session token for `email` at the second `now`. The token
/// expires [`TOKEN_TTL_SECONDS`] later and is signed under `secret`. The
/// one failure is an expiry that does not fit the clock's range.
pub fn generate_auth_token(email: &Email, secret: &[u8], now: u64) -> (issued: Result<
    String,
    TokenError,
>)
    ensures
        match issued {
            Ok(token) => issue_outcome(secret@, email@, now) == Ok::<Seq<char>, TokenError>(
                token@,
            ),
            Err(error) => issue_outcome(secret@, email@, now) == Err::<Seq<char>, TokenError>(
                error,
            ),
        },
{
    let expiry = match now.checked_add(TOKEN_TTL_SECONDS) {
        Some(expiry) => expiry,
        None => {
            return Err(TokenError::UnexpectedError);
        },
    };
    let payload = payload_for(email, expiry);
    let tag = hmac_sha256_tag(secret, payload.as_str().as_bytes());
    let mut token = to_hex(tag.as_slice());
    append_separator(&mut token);
    token.append(payload.as_str());
    Ok(token)
}

/// Validates `token` at the second `now`. On success the claims state the
/// subject and the expiry of the token. Otherwise the error is the first
/// check that fails, in the order malformed, signature, expiry, revocation.
/// The revocation store is asked only about a token that passed the first
/// three checks; if it fails, the error is `UnexpectedError`.
pub fn validate_token<B: BannedTokenStore>(
    token: &str,
    secret: &[u8],
    now: u64,
    banned: &B,
) -> (checked: Result<Claims, TokenError>)
    ensures
        match checked {
            Ok(claims) => validate_outcome(secret@, banned.tokens(), token@, now) == Ok::<
                (Seq<char>, u64),
                TokenError,
            >((claims.sub@, claims.exp)),
            Err(TokenError::UnexpectedError) => {
                &&& !B::infallible()
                &&& is_well_formed_token(token@)
                &&& carried_signature(token@) == token_signature(secret@, signed_part(token@))
                &&& now < token_expiry(token@)
            },
            Err(error) => validate_outcome(secret@, banned.tokens(), token@, now) == Err::<
                (Seq<char>, u64),
                TokenError,
            >(error),
        },
{
    let fields = match split_token(token) {
        Some(fields) => fields,
        None => {
            return Err(TokenError::Malformed);
        },
    };
    let expected = hmac_sha256_tag(secret, fields.signed.as_slice());
    if !constant_time_eq(fields.signature.as_slice(), expected.as_slice()) {
        return Err(TokenError::SignatureInvalid);
    }
    if fields.expiry <= now {
        return Err(TokenError::Expired);
    }
    match banned.contains_token(token) {
        Ok(true) => Err(TokenError::Revoked),
        Ok(false) => Ok(Claims { sub: fields.subject, exp: fields.expiry }),
        Err(_) => Err(TokenError::UnexpectedError),
    }
}

/// Revokes `token`, so that it is refused from now on whatever its expiry.
/// The token must be well-formed; it need not be valid. Revoking a token
/// again changes nothing.
pub fn invalidate_token<B: BannedTokenStore>(token: &str, banned: &mut B) -> (outcome: Result<
    (),
    TokenError,
>)
    ensures
        match outcome {
            Ok(()) => {
                &&& is_well_formed_token(token@)
                &&& final(banned).tokens() == old(banned).tokens().insert(token@)
            },
            Err(TokenError::Malformed) => {
                &&& !is_well_formed_token(token@)
                &&& final(banned).tokens() == old(banned).tokens()
            },
            Err(error) => {
                &&& error == TokenError::UnexpectedError
                &&& is_well_formed_token(token@)
                &&& !B::infallible()
                &&& final(banned).tokens() == old(banned).tokens()
            },
        },
{
    if split_token(token).is_none() {
        return Err(TokenError::Malformed);
    }
    match banned.add_token(token.to_string()) {
        Ok(()) => Ok(()),
        Err(_) => Err(TokenError::UnexpectedError),
    }
}

/// The text that [`token_text`] gives is a well-formed token that carries
/// the signature, the expiry and the subject it was made from.
pub proof fn lemma_token_text_fields(secret: Seq<u8>, subject: Seq<char>, expiry: u64)
    requires
        is_valid_email(subject),
    ensures
        is_well_formed_token(token_text(secret, subject, expiry)),
        carried_signature(token_text(secret, subject, expiry)) == token_signature(
            secret,
            token_payload(subject, expiry),
        ),
        signed_part(token_text(secret, subject, expiry)) == token_payload(subject, expiry),
        token_expiry(token_text(secret, subject, expiry)) == expiry,
        token_subject(token_text(secret, subject, expiry)) == subject,
{
    let payload = token_payload(subject, expiry);
    let signature = token_signature(secret, payload);
    let token = token_text(secret, subject, expiry);
    let expiry_bytes = spec_u64_to_le_bytes(expiry);
    lemma_auto_spec_u64_to_from_le_bytes();
    lemma_hex_roundtrip(signature);
    lemma_hex_roundtrip(expiry_bytes);
    assert(token.subrange(EXPIRY_FIELD_START as int, SUBJECT_START - 1) =~= hex_encode(
        expiry_bytes,
    ));
    assert(token.skip(SUBJECT_START as int) =~= subject);
}

/// A token validates from the second it is issued until the second before
/// it expires, with the subject it was issued to, unless it has been
/// revoked; and then it is refused as revoked.
pub proof fn lemma_issued_token_validates(
    secret: Seq<u8>,
    revoked: Set<Seq<char>>,
    subject: Seq<char>,
    now: u64,
    at: u64,
)
    requires
        is_valid_email(subject),
        now <= at < now + TOKEN_TTL_SECONDS <= u64::MAX,
    ensures
        ({
            let expiry = (now + TOKEN_TTL_SECONDS) as u64;
            let token = token_text(secret, subject, expiry);
            &&& issue_outcome(secret, subject, now) == Ok::<Seq<char>, TokenError>(token)
            &&& !revoked.contains(token) ==> validate_outcome(secret, revoked, token, at) == Ok::<
                (Seq<char>, u64),
                TokenError,
            >((subject, expiry))
            &&& revoked.contains(token) ==> validate_outcome(secret, revoked, token, at) == Err::<
                (Seq<char>, u64),
                TokenError,
            >(TokenError::Revoked)
        }),
{
    lemma_token_text_fields(secret, subject, (now + TOKEN_TTL_SECONDS) as u64);
}

/// Once a token has been revoked it never validates again. Where it
/// validated before, at a second before its expiry, it is now refused as
/// revoked.
pub proof fn lemma_revoked_token_is_refused(
    secret: Seq<u8>,
    revoked: Set<Seq<char>>,
    token: Seq<char>,
    now: u64,
)
    ensures
        validate_outcome(secret, revoked.insert(token), token, now) is Err,
        validate_outcome(secret, revoked, token, now) is Ok ==> validate_outcome(
            secret,
            revoked.insert(token),
            token,
            now,
        ) == Err::<(Seq<char>, u64), TokenError>(TokenError::Revoked),
{
}

} // verus!
