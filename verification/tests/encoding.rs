use chain_vm_mock::bigint::{BigIntValue, BigUintValue};
use chain_vm_mock::bytes::{trim_leading_zeros, u64_to_be_bytes};
use chain_vm_mock::tx_context::TxContext;

fn biguint(n: u64) -> BigUintValue {
    BigUintValue::from_bytes_be(&n.to_be_bytes().to_vec())
}

#[test]
fn biguint_zero_encodes_empty() {
    let z = BigUintValue::zero();
    assert_eq!(z.to_bytes_be(), Vec::<u8>::new());
    assert!(z.is_zero());
    let z2 = BigUintValue::from_bytes_be(&vec![0u8, 0, 0]);
    assert_eq!(z2.to_bytes_be(), Vec::<u8>::new());
}

#[test]
fn biguint_from_bytes_trims_leading_zeros() {
    let v = BigUintValue::from_bytes_be(&vec![0u8, 0, 1, 44]);
    assert_eq!(v.to_bytes_be(), vec![1u8, 44]);
}

#[test]
fn biguint_add_exact() {
    let a = biguint(250);
    let b = biguint(10);
    let sum = a.add(&b);
    assert_eq!(sum.to_bytes_be(), vec![1u8, 4]);
}

#[test]
fn biguint_checked_sub_exact_and_underflow() {
    let a = biguint(260);
    let b = biguint(5);
    let d = a.checked_sub(&b).unwrap();
    assert_eq!(d.to_bytes_be(), vec![255u8]);
    assert!(b.checked_sub(&a).is_none());
}

#[test]
fn biguint_lt_is_numeric_not_lexicographic() {
    // [2] < [1, 0] numerically (2 < 256) though not lexicographically
    let small = BigUintValue::from_bytes_be(&vec![2u8]);
    let big = BigUintValue::from_bytes_be(&vec![1u8, 0]);
    assert!(small.lt(&big));
    assert!(!big.lt(&small));
}

#[test]
fn bigint_i64_round_trip() {
    for v in [0i64, 1, -1, 300, -300, i64::MAX, i64::MIN] {
        let bi = BigIntValue::from_i64(v);
        assert_eq!(bi.to_i64(), Some(v));
    }
}

#[test]
fn bigint_signed_encoding_exact() {
    assert_eq!(BigIntValue::from_i64(300).to_signed_bytes_be(), vec![1u8, 44]);
    assert_eq!(BigIntValue::from_i64(-1).to_signed_bytes_be(), vec![255u8]);
    assert_eq!(BigIntValue::from_i64(128).to_signed_bytes_be(), vec![0u8, 128]);
}

#[test]
fn bigint_too_wide_does_not_fit_i64() {
    // 2^64 is out of i64 range
    let mut bytes = vec![1u8];
    bytes.extend(vec![0u8; 8]);
    let bi = BigIntValue::from_signed_bytes_be(&bytes);
    assert_eq!(bi.to_i64(), None);
}

#[test]
fn signed_decoding_minimalizes_redundant_leading_bytes() {
    // a redundant zero before a non-negative tail is dropped
    let v = BigIntValue::from_signed_bytes_be(&vec![0u8, 5]);
    assert_eq!(v.to_signed_bytes_be(), vec![5u8]);
    // a redundant 0xff before a negative tail is dropped
    let v = BigIntValue::from_signed_bytes_be(&vec![255u8, 255]);
    assert_eq!(v.to_signed_bytes_be(), vec![255u8]);
    // a zero that carries sign information stays
    let v = BigIntValue::from_signed_bytes_be(&vec![0u8, 200]);
    assert_eq!(v.to_signed_bytes_be(), vec![0u8, 200]);
    // zero is the empty string
    let v = BigIntValue::from_signed_bytes_be(&vec![0u8, 0]);
    assert_eq!(v.to_signed_bytes_be(), Vec::<u8>::new());
    assert_eq!(v.to_i64(), Some(0));
}

#[test]
fn u64_big_endian_bytes_exact() {
    assert_eq!(u64_to_be_bytes(0), vec![0u8; 8]);
    assert_eq!(u64_to_be_bytes(1), vec![0u8, 0, 0, 0, 0, 0, 0, 1]);
    assert_eq!(
        u64_to_be_bytes(0x0102030405060708),
        vec![1u8, 2, 3, 4, 5, 6, 7, 8]
    );
}

#[test]
fn trim_leading_zeros_exact() {
    assert_eq!(trim_leading_zeros(&vec![0u8, 0, 7, 0]), vec![7u8, 0]);
    assert_eq!(trim_leading_zeros(&vec![0u8, 0]), Vec::<u8>::new());
    assert_eq!(trim_leading_zeros(&vec![9u8]), vec![9u8]);
}

#[test]
fn sha3_256_empty_input_known_digest() {
    let (ctx, _cache) = TxContext::dummy();
    let digest = ctx.sha256(&Vec::new());
    assert_eq!(
        digest,
        hex::decode("a7ffc6f8bf1ed76651c14756a061d662f580ff4de43b49fa82d80a4b80f8434a").unwrap()
    );
}

#[test]
fn keccak256_empty_input_known_digest() {
    let (ctx, _cache) = TxContext::dummy();
    let digest = ctx.keccak256(&Vec::new());
    assert_eq!(
        digest,
        hex::decode("c5d2460186f7233c927e7db2dcc703c0e500b653ca82273b7bfad8045d85a470").unwrap()
    );
}

#[test]
fn hashes_differ_from_input_and_each_other() {
    let (ctx, _cache) = TxContext::dummy();
    let data = vec![1u8, 2, 3];
    let a = ctx.sha256(&data);
    let b = ctx.keccak256(&data);
    assert_ne!(a, data);
    assert_ne!(b, data);
    assert_ne!(a, b);
    assert_eq!(a, ctx.sha256(&vec![1u8, 2, 3]));
}
