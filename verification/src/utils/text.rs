//! Conversions between strings and character vectors, and the lowercase
//! hexadecimal rendering of bytes used for identifiers and tokens.

use vstd::prelude::*;
use vstd::string::*;

verus! {

/// The characters of `s`, in order.
pub fn chars_of(s: &str) -> (chars: Vec<char>)
    ensures
        chars@ == s@,
{
    let mut chars: Vec<char> = Vec::new();
    for c in it: s.chars()
        invariant
            it.seq() == s@,
            chars@ == it.seq().take(it.index()),
    {
        chars.push(c);
    }
    chars
}

/// Whether `wanted` occurs in `text`.
pub fn contains_char(text: &str, wanted: char) -> (found: bool)
    ensures
        found == text@.contains(wanted),
{
    let mut found = false;
    for c in it: text.chars()
        invariant
            it.seq() == text@,
            found == it.seq().take(it.index()).contains(wanted),
    {
        proof {
            let seen = it.seq().take(it.index());
            let next = it.seq().take(it.index() + 1);
            assert(next =~= seen.push(c));
            if c == wanted {
                assert(next[it.index()] == wanted);
            }
        }
        if c == wanted {
            found = true;
        }
    }
    assert(text@.take(text@.len() as int) =~= text@);
    found
}

/// The lowercase hexadecimal digit for a value below 16.
pub open spec fn hex_digit(d: u8) -> char {
    if d < 10 {
        (48 + d) as char
    } else {
        (87 + d) as char
    }
}

/// Whether `c` is one of `0`-`9` or `a`-`f`.
pub open spec fn is_hex_digit(c: char) -> bool {
    ('0' <= c && c <= '9') || ('a' <= c && c <= 'f')
}

/// The value of a lowercase hexadecimal digit.
pub open spec fn hex_digit_value(c: char) -> u8 {
    if c <= '9' {
        (c as u8 - 48) as u8
    } else {
        (c as u8 - 87) as u8
    }
}

/// Two lowercase hexadecimal digits per byte, high nibble first.
pub open spec fn hex_encode(bytes: Seq<u8>) -> Seq<char> {
    Seq::new(
        2 * bytes.len(),
        |i: int|
            if i % 2 == 0 {
                hex_digit(bytes[i / 2] / 16)
            } else {
                hex_digit(bytes[i / 2] % 16)
            },
    )
}

/// Whether `chars` is the hexadecimal rendering of some byte sequence.
pub open spec fn is_hex_encoding(chars: Seq<char>) -> bool {
    chars.len() % 2 == 0 && forall|i: int|
        0 <= i < chars.len() ==> is_hex_digit(#[trigger] chars[i])
}

/// The bytes that `chars` renders, for `chars` satisfying [`is_hex_encoding`].
pub open spec fn hex_decode(chars: Seq<char>) -> Seq<u8> {
    Seq::new(
        chars.len() / 2,
        |i: int| (hex_digit_value(chars[2 * i]) * 16 + hex_digit_value(chars[2 * i + 1])) as u8,
    )
}

/// Rendering then reading gives the bytes back, and every rendering is
/// accepted by the reader.
pub proof fn lemma_hex_roundtrip(bytes: Seq<u8>)
    ensures
        is_hex_encoding(hex_encode(bytes)),
        hex_decode(hex_encode(bytes)) == bytes,
{
    let chars = hex_encode(bytes);
    assert forall|i: int| 0 <= i < chars.len() implies is_hex_digit(#[trigger] chars[i]) by {
        lemma_hex_digit(bytes[i / 2] / 16);
        lemma_hex_digit(bytes[i / 2] % 16);
    }
    assert forall|i: int| 0 <= i < bytes.len() implies hex_decode(chars)[i] == bytes[i] by {
        lemma_hex_digit(bytes[i] / 16);
        lemma_hex_digit(bytes[i] % 16);
    }
}

/// A digit value below 16 renders to a hexadecimal digit that reads back as
/// the same value.
proof fn lemma_hex_digit(d: u8)
    requires
        d < 16,
    ensures
        is_hex_digit(hex_digit(d)),
        hex_digit_value(hex_digit(d)) == d,
{
}

/// The one-character text of [`hex_digit`]. The first ten are the decimal
/// digits.
pub(crate) fn hex_digit_text(d: u8) -> (text: &'static str)
    requires
        d < 16,
    ensures
        text@ == seq![hex_digit(d)],
{
    proof {
        reveal_strlit("0");
        reveal_strlit("1");
        reveal_strlit("2");
        reveal_strlit("3");
        reveal_strlit("4");
        reveal_strlit("5");
        reveal_strlit("6");
        reveal_strlit("7");
        reveal_strlit("8");
        reveal_strlit("9");
        reveal_strlit("a");
        reveal_strlit("b");
        reveal_strlit("c");
        reveal_strlit("d");
        reveal_strlit("e");
        reveal_strlit("f");
    }
    let text = match d {
        0 => "0",
        1 => "1",
        2 => "2",
        3 => "3",
        4 => "4",
        5 => "5",
        6 => "6",
        7 => "7",
        8 => "8",
        9 => "9",
        10 => "a",
        11 => "b",
        12 => "c",
        13 => "d",
        14 => "e",
        _ => "f",
    };
    text
}

/// Reads one lowercase hexadecimal digit.
fn hex_value_of(c: char) -> (v: Option<u8>)
    ensures
        v is Some <==> is_hex_digit(c),
        v is Some ==> v->Some_0 == hex_digit_value(c),
{
    if '0' <= c && c <= '9' {
        Some((c as u8) - 48)
    } else if 'a' <= c && c <= 'f' {
        Some((c as u8) - 87)
    } else {
        None
    }
}

/// Renders `bytes` in lowercase hexadecimal.
pub fn to_hex(bytes: &[u8]) -> (text: String)
    ensures
        text@ == hex_encode(bytes@),
{
    let mut text = String::new();
    let mut i: usize = 0;
    while i < bytes.len()
        invariant
            i <= bytes.len(),
            text@.len() == 2 * i,
            forall|k: int| 0 <= k < text@.len() ==> text@[k] == hex_encode(bytes@)[k],
        decreases bytes.len() - i,
    {
        let b: u8 = bytes[i];
        text.append(hex_digit_text(b / 16));
        text.append(hex_digit_text(b % 16));
        i += 1;
    }
    text
}

/// Reads lowercase hexadecimal text: `Some` of the bytes when `chars` is a
/// hexadecimal rendering, `None` otherwise.
pub fn from_hex(chars: &[char]) -> (bytes: Option<Vec<u8>>)
    ensures
        bytes is Some <==> is_hex_encoding(chars@),
        bytes is Some ==> bytes->Some_0@ == hex_decode(chars@),
{
    let n: usize = chars.len();
    if n % 2 != 0 {
        return None;
    }
    let mut bytes: Vec<u8> = Vec::new();
    let mut i: usize = 0;
    while i < n / 2
        invariant
            n == chars.len(),
            n % 2 == 0,
            i <= n / 2,
            bytes@.len() == i,
            forall|k: int| 0 <= k < 2 * i ==> is_hex_digit(#[trigger] chars@[k]),
            forall|k: int| 0 <= k < i ==> bytes@[k] == hex_decode(chars@)[k],
        decreases n / 2 - i,
    {
        let hi = hex_value_of(chars[2 * i]);
        let lo = hex_value_of(chars[2 * i + 1]);
        match (hi, lo) {
            (Some(h), Some(l)) => {
                bytes.push(h * 16 + l);
            },
            _ => {
                return None;
            },
        }
        i += 1;
    }
    Some(bytes)
}

} // verus!
