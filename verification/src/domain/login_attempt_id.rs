//! The identifier that ties a second-factor challenge to one login.

use vstd::bytes::{spec_u128_to_le_bytes, u128_to_le_bytes};
use vstd::prelude::*;
use vstd::std_specs::cmp::PartialEqSpecImpl;

use crate::utils::random::random_u128;
use crate::utils::text::{
    chars_of, from_hex, hex_encode, is_hex_encoding, lemma_hex_roundtrip, to_hex,
};

verus! {

/// The number of characters in an attempt id: two for each of 16 bytes.
pub const LOGIN_ATTEMPT_ID_LEN: usize = 32;

/// Whether `text` has the shape of an attempt id: 32 lowercase hexadecimal
/// digits.
pub open spec fn is_login_attempt_id(text: Seq<char>) -> bool {
    text.len() == LOGIN_ATTEMPT_ID_LEN && is_hex_encoding(text)
}

/// The text of the attempt id that the 128 bits of `seed` spell.
pub open spec fn login_attempt_id_text(seed: u128) -> Seq<char> {
    hex_encode(spec_u128_to_le_bytes(seed))
}

/// An opaque 128-bit identifier, minted at random for each login that needs
/// a second factor.
#[derive(Debug, Eq, Hash)]
pub struct LoginAttemptId(String);

impl View for LoginAttemptId {
    type V = Seq<char>;

    closed spec fn view(&self) -> Seq<char> {
        self.0@
    }
}

impl LoginAttemptId {
    #[verifier::type_invariant]
    spec fn well_formed(self) -> bool {
        is_login_attempt_id(self.0@)
    }

    /// Accepts `id` exactly when it is 32 lowercase hexadecimal digits.
    pub fn parse(id: &str) -> (parsed: Result<Self, String>)
        ensures
            parsed is Ok <==> is_login_attempt_id(id@),
            parsed matches Ok(attempt) ==> attempt@ == id@,
            parsed matches Err(message) ==> message@ == "Invalid login attempt id"@,
    {
        let chars = chars_of(id);
        if chars.len() == LOGIN_ATTEMPT_ID_LEN && from_hex(chars.as_slice()).is_some() {
            Ok(LoginAttemptId(id.to_string()))
        } else {
            Err("Invalid login attempt id".to_string())
        }
    }

    /// The attempt id that `seed` spells.
    pub fn from_seed(seed: u128) -> (id: Self)
        ensures
            id@ == login_attempt_id_text(seed),
    {
        let bytes = u128_to_le_bytes(seed);
        proof {
            lemma_hex_roundtrip(bytes@);
        }
        LoginAttemptId(to_hex(bytes.as_slice()))
    }
}

impl Default for LoginAttemptId {
    /// Mints a fresh id from 128 random bits.
    fn default() -> (id: Self)
        ensures
            is_login_attempt_id(id@),
    {
        let id = LoginAttemptId::from_seed(random_u128());
        proof {
            use_type_invariant(&id);
        }
        id
    }
}

impl AsRef<str> for LoginAttemptId {
    /// The text of the id.
    fn as_ref(&self) -> (text: &str)
        ensures
            text@ == self@,
            is_login_attempt_id(text@),
    {
        proof {
            use_type_invariant(self);
        }
        self.0.as_str()
    }
}

impl Clone for LoginAttemptId {
    fn clone(&self) -> (copy: Self)
        ensures
            copy@ == self@,
    {
        proof {
            use_type_invariant(self);
        }
        LoginAttemptId(self.0.clone())
    }
}

impl PartialEq for LoginAttemptId {
    fn eq(&self, other: &Self) -> (equal: bool) {
        self.0 == other.0
    }
}

impl PartialEqSpecImpl for LoginAttemptId {
    open spec fn obeys_eq_spec() -> bool {
        true
    }

    open spec fn eq_spec(&self, other: &Self) -> bool {
        self@ == other@
    }
}

} // verus!
