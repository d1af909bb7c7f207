//! Hashing hooks.
//!
//! The digests are computed by the `sha3` crate. Their values are functions
//! of the input bytes alone, so each is given an uninterpreted name that the
//! wrappers' contracts and their callers share.

use vstd::prelude::*;

use sha3::Digest;

verus! {

/// The SHA3-256 digest of a byte string.
pub uninterp spec fn sha3_256_of(data: Seq<u8>) -> Seq<u8>;

/// The Keccak-256 digest of a byte string.
pub uninterp spec fn keccak256_of(data: Seq<u8>) -> Seq<u8>;

/// Relies on `sha3::Sha3_256` (`Digest`): a 32-byte digest that depends on
/// the input bytes alone.
#[verifier::external_body]
pub(crate) fn sha3_256(data: &Vec<u8>) -> (r: Vec<u8>)
    ensures
        r@ == sha3_256_of(data@),
        r@.len() == 32,
{
    let mut hasher = sha3::Sha3_256::new();
    hasher.update(data.as_slice());
    hasher.finalize().to_vec()
}

/// Relies on `sha3::Keccak256` (`Digest`): a 32-byte digest that depends on
/// the input bytes alone.
#[verifier::external_body]
pub(crate) fn keccak256(data: &Vec<u8>) -> (r: Vec<u8>)
    ensures
        r@ == keccak256_of(data@),
        r@.len() == 32,
{
    let mut hasher = sha3::Keccak256::new();
    hasher.update(data.as_slice());
    hasher.finalize().to_vec()
}

} // verus!
