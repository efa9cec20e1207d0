//! The six-digit code that proves possession of the second factor.

use vstd::prelude::*;
use vstd::std_specs::cmp::PartialEqSpecImpl;
use vstd::string::*;

use crate::utils::random::random_u128;
use crate::utils::text::{chars_of, hex_digit_text};

verus! {

/// The number of digits in a code.
pub const TWO_FA_CODE_LEN: usize = 6;

/// The number of different codes.
pub const TWO_FA_CODE_COUNT: u128 = 1_000_000;

/// Whether `c` is one of `0`-`9`.
pub open spec fn is_decimal_digit(c: char) -> bool {
    '0' <= c && c <= '9'
}

/// The character for a decimal digit value.
pub open spec fn decimal_digit(d: int) -> char {
    (48 + d) as char
}

/// Whether `text` has the shape of a code: six decimal digits.
pub open spec fn is_two_fa_code(text: Seq<char>) -> bool {
    text.len() == TWO_FA_CODE_LEN && forall|i: int|
        0 <= i < text.len() ==> is_decimal_digit(#[trigger] text[i])
}

/// The six digits of `seed` modulo one million, leading zeros kept. Over
/// the 128 bits of a seed the remainders are as good as equally likely.
pub open spec fn two_fa_code_text(seed: u128) -> Seq<char> {
    let n = seed as int % 1_000_000;
    seq![
        decimal_digit(n / 100_000 % 10),
        decimal_digit(n / 10_000 % 10),
        decimal_digit(n / 1_000 % 10),
        decimal_digit(n / 100 % 10),
        decimal_digit(n / 10 % 10),
        decimal_digit(n % 10),
    ]
}

/// A single-use numeric code, minted at random for each login that needs a
/// second factor.
#[derive(Debug, Eq, Hash)]
pub struct TwoFACode(String);

impl View for TwoFACode {
    type V = Seq<char>;

    closed spec fn view(&self) -> Seq<char> {
        self.0@
    }
}

/// Whether every character of `chars` is a decimal digit.
fn all_decimal_digits(chars: &[char]) -> (all: bool)
    ensures
        all == forall|i: int| 0 <= i < chars@.len() ==> is_decimal_digit(#[trigger] chars@[i]),
{
    let mut i: usize = 0;
    while i < chars.len()
        invariant
            i <= chars.len(),
            forall|k: int| 0 <= k < i ==> is_decimal_digit(#[trigger] chars@[k]),
        decreases chars.len() - i,
    {
        let c: char = chars[i];
        if !('0' <= c && c <= '9') {
            return false;
        }
        i += 1;
    }
    true
}

impl TwoFACode {
    #[verifier::type_invariant]
    spec fn well_formed(self) -> bool {
        is_two_fa_code(self.0@)
    }

    /// Accepts `code` exactly when it is six decimal digits.
    pub fn parse(code: &str) -> (parsed: Result<Self, String>)
        ensures
            parsed is Ok <==> is_two_fa_code(code@),
            parsed matches Ok(accepted) ==> accepted@ == code@,
            parsed matches Err(message) ==> message@ == "Invalid 2FA code"@,
    {
        let chars = chars_of(code);
        if chars.len() == TWO_FA_CODE_LEN && all_decimal_digits(chars.as_slice()) {
            Ok(TwoFACode(code.to_string()))
        } else {
            Err("Invalid 2FA code".to_string())
        }
    }

    /// The code that `seed` spells.
    pub fn from_seed(seed: u128) -> (code: Self)
        ensures
            code@ == two_fa_code_text(seed),
    {
        let n: u32 = (seed % TWO_FA_CODE_COUNT) as u32;
        let mut text = String::new();
        text.append(hex_digit_text((n / 100_000 % 10) as u8));
        text.append(hex_digit_text((n / 10_000 % 10) as u8));
        text.append(hex_digit_text((n / 1_000 % 10) as u8));
        text.append(hex_digit_text((n / 100 % 10) as u8));
        text.append(hex_digit_text((n / 10 % 10) as u8));
        text.append(hex_digit_text((n % 10) as u8));
        TwoFACode(text)
    }
}

impl Default for TwoFACode {
    /// Mints a fresh code from random bits.
    fn default() -> (code: Self)
        ensures
            is_two_fa_code(code@),
    {
        let code = TwoFACode::from_seed(random_u128());
        proof {
            use_type_invariant(&code);
        }
        code
    }
}

impl AsRef<str> for TwoFACode {
    /// The text of the code.
    fn as_ref(&self) -> (text: &str)
        ensures
            text@ == self@,
            is_two_fa_code(text@),
    {
        proof {
            use_type_invariant(self);
        }
        self.0.as_str()
    }
}

impl Clone for TwoFACode {
    fn clone(&self) -> (copy: Self)
        ensures
            copy@ == self@,
    {
        proof {
            use_type_invariant(self);
        }
        TwoFACode(self.0.clone())
    }
}

impl PartialEq for TwoFACode {
    fn eq(&self, other: &Self) -> (equal: bool) {
        self.0 == other.0
    }
}

impl PartialEqSpecImpl for TwoFACode {
    open spec fn obeys_eq_spec() -> bool {
        true
    }

    open spec fn eq_spec(&self, other: &Self) -> bool {
        self@ == other@
    }
}

} // verus!
