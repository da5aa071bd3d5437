//! The hash functions that storage keys are built from.
use vstd::prelude::*;

verus! {

/// The 128-bit xxHash (two 64-bit lanes, seeds 0 and 1) of a byte string.
pub uninterp spec fn twox_128_of(data: Seq<u8>) -> [u8; 16];

/// The 64-bit xxHash (seed 0) of a byte string.
pub uninterp spec fn twox_64_of(data: Seq<u8>) -> [u8; 8];

/// The 128-bit Blake2b digest of a byte string.
pub uninterp spec fn blake2_128_of(data: Seq<u8>) -> [u8; 16];

/// Relies on sp_core::hashing::twox_128: a 16-byte digest that depends on the
/// input bytes alone.
#[verifier::external_body]
pub(crate) fn twox_128(data: &[u8]) -> (r: Vec<u8>)
    ensures
        r@ == twox_128_of(data@)@,
        r@.len() == 16,
{
    sp_core::hashing::twox_128(data).to_vec()
}

/// Relies on sp_core::hashing::twox_64: an 8-byte digest that depends on the
/// input bytes alone.
#[verifier::external_body]
pub(crate) fn twox_64(data: &[u8]) -> (r: Vec<u8>)
    ensures
        r@ == twox_64_of(data@)@,
        r@.len() == 8,
{
    sp_core::hashing::twox_64(data).to_vec()
}

/// Relies on sp_core::hashing::blake2_128: a 16-byte digest that depends on the
/// input bytes alone.
#[verifier::external_body]
pub(crate) fn blake2_128(data: &[u8]) -> (r: Vec<u8>)
    ensures
        r@ == blake2_128_of(data@)@,
        r@.len() == 16,
{
    sp_core::hashing::blake2_128(data).to_vec()
}

} // verus!
