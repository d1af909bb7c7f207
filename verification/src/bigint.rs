//! Arbitrary-precision balance and storage numbers.
//!
//! An unsigned number is carried as its canonical big-endian byte string
//! (`bytes::is_canonical`); its mathematical value is `bytes::be_val`. A
//! signed number is carried as a two's complement big-endian byte string;
//! its value is `bytes::signed_be_val`. The arithmetic itself is done by
//! `num_bigint` behind trusted wrappers whose contracts are stated over
//! those spec functions.

use vstd::prelude::*;

use crate::bytes::{
    be_val, copy_bytes, is_canonical, lemma_canonical_unique, lemma_spec_trim, signed_be_val,
    signed_trim, spec_signed_trim, spec_trim, trim_leading_zeros,
};

use num_traits::CheckedSub;
use num_traits::ToPrimitive;

verus! {

/// Relies on `num_bigint::BigUint`: `from_bytes_be` reads big-endian digits,
/// `+` adds the numeric values, `to_bytes_be` writes the sum's big-endian digits.
#[verifier::external_body]
fn biguint_add_bytes(a: &Vec<u8>, b: &Vec<u8>) -> (r: Vec<u8>)
    ensures
        be_val(r@) == be_val(a@) + be_val(b@),
{
    let x = num_bigint::BigUint::from_bytes_be(a) + num_bigint::BigUint::from_bytes_be(b);
    x.to_bytes_be()
}

/// Relies on `num_bigint::BigUint`: `checked_sub` returns the numeric
/// difference, or `None` exactly when it would underflow.
#[verifier::external_body]
fn biguint_checked_sub_bytes(a: &Vec<u8>, b: &Vec<u8>) -> (r: Option<Vec<u8>>)
    ensures
        r is Some <==> be_val(a@) >= be_val(b@),
        r matches Some(v) ==> be_val(v@) == be_val(a@) - be_val(b@),
{
    let x = num_bigint::BigUint::from_bytes_be(a);
    let y = num_bigint::BigUint::from_bytes_be(b);
    match x.checked_sub(&y) {
        Some(d) => Some(d.to_bytes_be()),
        None => None,
    }
}

/// Relies on `num_bigint::BigUint`: `Ord` compares the numeric values.
#[verifier::external_body]
fn biguint_lt_bytes(a: &Vec<u8>, b: &Vec<u8>) -> (r: bool)
    ensures
        r == (be_val(a@) < be_val(b@)),
{
    num_bigint::BigUint::from_bytes_be(a) < num_bigint::BigUint::from_bytes_be(b)
}

/// Relies on `num_bigint::BigInt`: `to_signed_bytes_be` writes the two's
/// complement big-endian representation of the value.
#[verifier::external_body]
fn i64_to_signed_bytes(v: i64) -> (r: Vec<u8>)
    ensures
        signed_be_val(r@) == v as int,
{
    num_bigint::BigInt::from(v).to_signed_bytes_be()
}

/// Relies on `num_bigint::BigInt`: `from_signed_bytes_be` reads the two's
/// complement big-endian representation, and `to_i64` returns the value
/// exactly when it fits in an `i64`.
#[verifier::external_body]
fn signed_bytes_to_i64(b: &Vec<u8>) -> (r: Option<i64>)
    ensures
        r is Some <==> i64::MIN as int <= signed_be_val(b@) <= i64::MAX as int,
        r matches Some(v) ==> v as int == signed_be_val(b@),
{
    num_bigint::BigInt::from_signed_bytes_be(b).to_i64()
}

/// An arbitrary-precision unsigned number, held as its canonical big-endian
/// byte string. Zero is the empty string.
pub struct BigUintValue {
    pub bytes: Vec<u8>,
}

impl View for BigUintValue {
    type V = nat;

    open spec fn view(&self) -> nat {
        be_val(self.bytes@)
    }
}

impl BigUintValue {
    /// The byte string is in canonical form.
    pub open spec fn wf(&self) -> bool {
        is_canonical(self.bytes@)
    }

    /// Zero, encoded as the empty byte string.
    pub fn zero() -> (r: BigUintValue)
        ensures
            r@ == 0,
            r.wf(),
    {
        BigUintValue { bytes: Vec::new() }
    }

    /// Decode a big-endian byte string; leading zero bytes are dropped.
    pub fn from_bytes_be(b: &Vec<u8>) -> (r: BigUintValue)
        ensures
            r@ == be_val(b@),
            r.wf(),
    {
        BigUintValue { bytes: trim_leading_zeros(b) }
    }

    /// The canonical big-endian encoding; empty for zero.
    pub fn to_bytes_be(&self) -> (r: Vec<u8>)
        requires
            self.wf(),
        ensures
            r@ =~= self.bytes@,
            be_val(r@) == self@,
            is_canonical(r@),
    {
        copy_bytes(&self.bytes)
    }

    /// A copy with the same value.
    pub fn dup(&self) -> (r: BigUintValue)
        ensures
            r@ == self@,
            r.bytes@ =~= self.bytes@,
            self.wf() ==> r.wf(),
    {
        BigUintValue { bytes: copy_bytes(&self.bytes) }
    }

    pub fn is_zero(&self) -> (r: bool)
        requires
            self.wf(),
        ensures
            r == (self@ == 0),
    {
        proof {
            if self.bytes@.len() > 0 {
                crate::bytes::lemma_canonical_pos(self.bytes@);
            }
        }
        self.bytes.len() == 0
    }

    /// Numeric comparison.
    pub fn lt(&self, other: &BigUintValue) -> (r: bool)
        ensures
            r == (self@ < other@),
    {
        biguint_lt_bytes(&self.bytes, &other.bytes)
    }

    /// The numeric sum.
    pub fn add(&self, other: &BigUintValue) -> (r: BigUintValue)
        ensures
            r@ == self@ + other@,
            r.wf(),
    {
        let raw = biguint_add_bytes(&self.bytes, &other.bytes);
        BigUintValue::from_bytes_be(&raw)
    }

    /// The numeric difference, or `None` exactly when it would underflow.
    pub fn checked_sub(&self, other: &BigUintValue) -> (r: Option<BigUintValue>)
        ensures
            r is Some <==> self@ >= other@,
            r matches Some(v) ==> v@ == self@ - other@ && v.wf(),
    {
        match biguint_checked_sub_bytes(&self.bytes, &other.bytes) {
            Some(raw) => Some(BigUintValue::from_bytes_be(&raw)),
            None => None,
        }
    }
}

/// Round trip of the unsigned encoding: encoding a number and decoding the
/// bytes yields the number back, for every value including zero (whose
/// encoding is the empty string); and the canonical encoding is unique, so
/// decoding then re-encoding returns byte-identical storage.
pub proof fn lemma_biguint_encoding_round_trip(v: BigUintValue)
    requires
        v.wf(),
    ensures
        be_val(v.bytes@) == v@,
        spec_trim(v.bytes@) =~= v.bytes@,
        forall|w: BigUintValue| w.wf() && w@ == v@ ==> w.bytes@ =~= v.bytes@,
{
    lemma_spec_trim(v.bytes@);
    assert forall|w: BigUintValue| w.wf() && w@ == v@ implies w.bytes@ =~= v.bytes@ by {
        lemma_canonical_unique(w.bytes@, v.bytes@);
    }
}

/// An arbitrary-precision signed number, held as its minimal two's
/// complement big-endian byte string.
pub struct BigIntValue {
    pub bytes: Vec<u8>,
}

impl View for BigIntValue {
    type V = int;

    open spec fn view(&self) -> int {
        signed_be_val(self.bytes@)
    }
}

impl BigIntValue {
    /// Decode a two's complement big-endian byte string; redundant leading
    /// bytes are dropped, so re-encoding yields the minimal form.
    pub fn from_signed_bytes_be(b: &Vec<u8>) -> (r: BigIntValue)
        ensures
            r@ == signed_be_val(b@),
            r.bytes@ =~= spec_signed_trim(b@),
    {
        BigIntValue { bytes: signed_trim(b) }
    }

    /// The two's complement big-endian encoding.
    pub fn to_signed_bytes_be(&self) -> (r: Vec<u8>)
        ensures
            r@ =~= self.bytes@,
            signed_be_val(r@) == self@,
    {
        copy_bytes(&self.bytes)
    }

    /// The signed encoding of a 64-bit value.
    pub fn from_i64(v: i64) -> (r: BigIntValue)
        ensures
            r@ == v as int,
    {
        BigIntValue { bytes: i64_to_signed_bytes(v) }
    }

    /// The value as an `i64`, or `None` exactly when it does not fit.
    pub fn to_i64(&self) -> (r: Option<i64>)
        ensures
            r is Some <==> i64::MIN as int <= self@ <= i64::MAX as int,
            r matches Some(v) ==> v as int == self@,
    {
        signed_bytes_to_i64(&self.bytes)
    }

    /// A copy with the same value.
    pub fn dup(&self) -> (r: BigIntValue)
        ensures
            r@ == self@,
            r.bytes@ =~= self.bytes@,
    {
        BigIntValue { bytes: copy_bytes(&self.bytes) }
    }
}

} // verus!
