//! The secret that a user presents, and the salted hash kept of it.

use vstd::bytes::{spec_u128_to_le_bytes, u128_to_le_bytes};
use vstd::prelude::*;
use vstd::string::*;
use vstd::utf8::encode_utf8;

use crate::utils::crypto::{constant_time_eq, pbkdf2_hmac_sha256, pbkdf2_hmac_sha256_bytes};
use crate::utils::random::random_u128;

verus! {

/// The least number of characters in a password.
pub const MIN_PASSWORD_LENGTH: usize = 8;

/// The number of PBKDF2 iterations behind every stored hash.
pub const PBKDF2_ROUNDS: u32 = 100_000;

/// The length in bytes of a stored digest.
pub const PASSWORD_DIGEST_LEN: usize = 32;

/// Whether `text` is long enough to be a password.
pub open spec fn is_valid_password(text: Seq<char>) -> bool {
    text.len() >= MIN_PASSWORD_LENGTH
}

/// A password that has passed [`Password::parse`]. The type has no textual
/// form and no equality: the plaintext leaves it only through
/// `as_ref`, and is compared only through a [`PasswordHash`].
pub struct Password(String);

impl View for Password {
    type V = Seq<char>;

    closed spec fn view(&self) -> Seq<char> {
        self.0@
    }
}

impl Password {
    #[verifier::type_invariant]
    spec fn well_formed(self) -> bool {
        is_valid_password(self.0@)
    }

    /// Accepts `password` exactly when it has at least eight characters,
    /// and keeps its text unchanged.
    pub fn parse(password: &str) -> (parsed: Result<Self, &'static str>)
        ensures
            parsed is Ok <==> is_valid_password(password@),
            parsed matches Ok(secret) ==> secret@ == password@,
            parsed matches Err(message) ==> message@
                == "Password must be at least 8 characters long"@,
    {
        if password.unicode_len() >= MIN_PASSWORD_LENGTH {
            Ok(Password(password.to_string()))
        } else {
            Err("Password must be at least 8 characters long")
        }
    }
}

impl AsRef<str> for Password {
    /// Reveals the plaintext, for the one caller that hashes it.
    fn as_ref(&self) -> (text: &str)
        ensures
            text@ == self@,
            is_valid_password(text@),
    {
        proof {
            use_type_invariant(self);
        }
        self.0.as_str()
    }
}

impl Clone for Password {
    fn clone(&self) -> (copy: Self)
        ensures
            copy@ == self@,
    {
        proof {
            use_type_invariant(self);
        }
        Password(self.0.clone())
    }
}

/// The digest that PBKDF2-HMAC-SHA256 derives from `password` and `salt`
/// with the service's fixed cost.
pub open spec fn stretched(password: Seq<char>, salt: Seq<u8>) -> Seq<u8> {
    pbkdf2_hmac_sha256(encode_utf8(password), salt, PBKDF2_ROUNDS, PASSWORD_DIGEST_LEN as nat)
}

/// What a [`PasswordHash`] holds.
pub struct PasswordHashView {
    pub salt: Seq<u8>,
    pub digest: Seq<u8>,
}

impl PasswordHashView {
    /// Whether `password` stretches to this digest under this salt.
    pub open spec fn accepts(self, password: Seq<char>) -> bool {
        self.digest == stretched(password, self.salt)
    }
}

/// The at-rest form of a password: a salt and the digest derived with it.
/// The plaintext cannot be read back from it.
#[derive(Debug, PartialEq, Eq)]
pub struct PasswordHash {
    salt: Vec<u8>,
    digest: Vec<u8>,
}

impl View for PasswordHash {
    type V = PasswordHashView;

    closed spec fn view(&self) -> PasswordHashView {
        PasswordHashView { salt: self.salt@, digest: self.digest@ }
    }
}

impl PasswordHash {
    /// Hashes `password` under a freshly drawn salt.
    pub fn new(password: &Password) -> (hash: Self)
        ensures
            hash@.accepts(password@),
    {
        let seed: u128 = random_u128();
        PasswordHash::with_salt(password, seed)
    }

    /// Hashes `password` under the sixteen salt bytes that `seed` spells
    /// in little-endian order.
    pub fn with_salt(password: &Password, seed: u128) -> (hash: Self)
        ensures
            hash@.salt == spec_u128_to_le_bytes(seed),
            hash@.accepts(password@),
    {
        let salt = u128_to_le_bytes(seed);
        let digest = pbkdf2_hmac_sha256_bytes(
            password.as_ref().as_bytes(),
            salt.as_slice(),
            PBKDF2_ROUNDS,
            PASSWORD_DIGEST_LEN,
        );
        PasswordHash { salt, digest }
    }

    /// A hash made of a salt and a digest that were stored earlier.
    pub fn from_parts(salt: Vec<u8>, digest: Vec<u8>) -> (hash: Self)
        ensures
            hash@.salt == salt@,
            hash@.digest == digest@,
    {
        PasswordHash { salt, digest }
    }

    /// The salt, as it is stored.
    pub fn salt(&self) -> (salt: &[u8])
        ensures
            salt@ == self@.salt,
    {
        self.salt.as_slice()
    }

    /// The digest, as it is stored.
    pub fn digest(&self) -> (digest: &[u8])
        ensures
            digest@ == self@.digest,
    {
        self.digest.as_slice()
    }

    /// Whether `candidate` is a password that this hash accepts. The digests
    /// are compared in full, wherever they first differ.
    pub fn verify(&self, candidate: &Password) -> (accepted: bool)
        ensures
            accepted == self@.accepts(candidate@),
    {
        let digest = pbkdf2_hmac_sha256_bytes(
            candidate.as_ref().as_bytes(),
            self.salt.as_slice(),
            PBKDF2_ROUNDS,
            PASSWORD_DIGEST_LEN,
        );
        constant_time_eq(self.digest.as_slice(), digest.as_slice())
    }
}

impl Clone for PasswordHash {
    fn clone(&self) -> (copy: Self)
        ensures
            copy@ == self@,
    {
        PasswordHash { salt: self.salt.clone(), digest: self.digest.clone() }
    }
}

} // verus!
