//! Keyed hashing and password stretching, and the comparison of their
//! outputs.

use hmac::{Hmac, Mac};
use sha2::Sha256;
use vstd::prelude::*;

verus! {

/// The HMAC-SHA256 tag of `message` under `key` (RFC 2104 with SHA-256), as
/// the `hmac` and `sha2` crates compute it.
pub uninterp spec fn hmac_sha256(key: Seq<u8>, message: Seq<u8>) -> Seq<u8>;

/// The PBKDF2 output (RFC 2898, HMAC-SHA256 as the pseudo-random function)
/// of `length` bytes for `password`, `salt` and `rounds` iterations, as the
/// `pbkdf2` crate computes it.
pub uninterp spec fn pbkdf2_hmac_sha256(
    password: Seq<u8>,
    salt: Seq<u8>,
    rounds: u32,
    length: nat,
) -> Seq<u8>;

/// The length in bytes of an HMAC-SHA256 tag.
pub const HMAC_SHA256_LEN: usize = 32;

/// Wraps `hmac::Hmac<sha2::Sha256>`: `Mac::new_from_slice` with `key` (which
/// accepts a key of any length), one `Mac::update` with `message`, then
/// `Mac::finalize`. The contract claims that the bytes returned are the
/// HMAC-SHA256 tag of the message under the key, and that a tag is 32 bytes
/// long, the output size of SHA-256.
#[verifier::external_body]
pub(crate) fn hmac_sha256_tag(key: &[u8], message: &[u8]) -> (tag: Vec<u8>)
    ensures
        tag@ == hmac_sha256(key@, message@),
        tag@.len() == HMAC_SHA256_LEN,
{
    let mut mac = <Hmac<Sha256> as Mac>::new_from_slice(key).expect("any key length");
    mac.update(message);
    mac.finalize().into_bytes().to_vec()
}

/// Wraps `pbkdf2::pbkdf2_hmac::<sha2::Sha256>`, which fills a buffer of
/// `length` bytes from `password`, `salt` and `rounds`. The contract claims
/// that the buffer then holds the PBKDF2-HMAC-SHA256 output for those
/// arguments and nothing else. The bound on `length` keeps the block counter
/// of the outside function inside `u32`.
#[verifier::external_body]
pub(crate) fn pbkdf2_hmac_sha256_bytes(
    password: &[u8],
    salt: &[u8],
    rounds: u32,
    length: usize,
) -> (derived: Vec<u8>)
    requires
        length <= u32::MAX,
    ensures
        derived@ == pbkdf2_hmac_sha256(password@, salt@, rounds, length as nat),
{
    let mut derived = vec![0u8; length];
    pbkdf2::pbkdf2_hmac::<Sha256>(password, salt, rounds, &mut derived);
    derived
}

/// Compares two byte strings without stopping at the first difference, so
/// that the time taken does not depend on where they differ.
pub fn constant_time_eq(a: &[u8], b: &[u8]) -> (equal: bool)
    ensures
        equal == (a@ == b@),
{
    if a.len() != b.len() {
        return false;
    }
    let mut difference: u8 = 0;
    let mut i: usize = 0;
    assert(a@.take(0) =~= b@.take(0));
    while i < a.len()
        invariant
            a.len() == b.len(),
            i <= a.len(),
            difference == 0 <==> a@.take(i as int) == b@.take(i as int),
        decreases a.len() - i,
    {
        let x: u8 = a[i];
        let y: u8 = b[i];
        let previous: u8 = difference;
        difference = difference | (x ^ y);
        proof {
            assert((previous | (x ^ y)) == 0 <==> (previous == 0 && x == y)) by (bit_vector);
            let ai = a@.take(i as int);
            let bi = b@.take(i as int);
            let an = a@.take(i + 1);
            let bn = b@.take(i + 1);
            assert(an =~= ai.push(x));
            assert(bn =~= bi.push(y));
            if an == bn {
                assert(an.drop_last() =~= ai);
                assert(bn.drop_last() =~= bi);
                assert(an.last() == x && bn.last() == y);
            }
        }
        i += 1;
    }
    assert(a@.take(a.len() as int) =~= a@);
    assert(b@.take(b.len() as int) =~= b@);
    difference == 0
}

} // verus!
