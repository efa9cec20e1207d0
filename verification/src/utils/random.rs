//! The source of unpredictable values for salts, attempt ids and codes.

use vstd::prelude::*;

verus! {

/// Wraps `rand::random::<u128>()`, which draws 128 bits from the thread-local
/// generator that the operating system seeds. Nothing is claimed of the
/// value: callers are verified for every `u128`.
#[verifier::external_body]
pub(crate) fn random_u128() -> u128 {
    rand::random::<u128>()
}

} // verus!
