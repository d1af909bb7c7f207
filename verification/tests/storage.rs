use chain_vm_mock::account::AccountData;
use chain_vm_mock::address::VMAddress;
use chain_vm_mock::bigint::BigUintValue;

fn account() -> AccountData {
    AccountData::new(VMAddress::from_bytes(&vec![7u8; 32]))
}

fn biguint(n: u64) -> BigUintValue {
    BigUintValue::from_bytes_be(&n.to_be_bytes().to_vec())
}

#[test]
fn reserved_key_write_fails_status_10_storage_unmodified() {
    let mut a = account();
    let key = b"ELRONDsecret".to_vec();
    let err = a.storage_store(&key, &vec![1u8, 2, 3]).unwrap_err();
    assert_eq!(err.status, 10);
    assert_eq!(
        err.message,
        b"cannot write to storage under Elrond reserved key".to_vec()
    );
    assert_eq!(a.storage_load(&key), Vec::<u8>::new());
    assert_eq!(a.storage_load_len(&key), 0);
}

#[test]
fn reserved_prefix_alone_is_reserved_but_other_keys_are_not() {
    let mut a = account();
    assert!(a.storage_store(&b"ELROND".to_vec(), &vec![1u8]).is_err());
    // the prefix must match from the start
    assert!(a.storage_store(&b"xELROND".to_vec(), &vec![1u8]).is_ok());
    assert!(a.storage_store(&b"ELRON".to_vec(), &vec![1u8]).is_ok());
}

#[test]
fn storage_store_load_round_trip() {
    let mut a = account();
    let key = b"counter".to_vec();
    a.storage_store(&key, &vec![9u8, 8]).unwrap();
    assert_eq!(a.storage_load(&key), vec![9u8, 8]);
    a.storage_store(&key, &vec![5u8]).unwrap();
    assert_eq!(a.storage_load(&key), vec![5u8]);
    assert_eq!(a.storage_load_len(&key), 1);
}

#[test]
fn big_uint_round_trip_including_zero() {
    let mut a = account();
    let key = b"supply".to_vec();
    let value = biguint(1_000_000);
    a.storage_store_big_uint(&key, &value).unwrap();
    let loaded = a.storage_load_big_uint(&key);
    assert_eq!(loaded.to_bytes_be(), value.to_bytes_be());

    let zero = BigUintValue::zero();
    a.storage_store_big_uint(&key, &zero).unwrap();
    // zero is encoded as the empty byte string
    assert_eq!(a.storage_load(&key), Vec::<u8>::new());
    let loaded_zero = a.storage_load_big_uint(&key);
    assert!(loaded_zero.is_zero());
}

#[test]
fn big_uint_of_unwritten_key_is_zero() {
    let a = account();
    let loaded = a.storage_load_big_uint(&b"nothing".to_vec());
    assert!(loaded.is_zero());
}

#[test]
fn bytes32_of_unwritten_key_is_all_zero() {
    let a = account();
    assert_eq!(a.storage_load_bytes32(&b"fresh".to_vec()), vec![0u8; 32]);
}

#[test]
fn bytes32_store_then_load_returns_original() {
    let mut a = account();
    let key = b"word".to_vec();
    let mut word = vec![0xabu8; 31];
    word.push(0xcd);
    a.storage_store_bytes32(&key, &word).unwrap();
    assert_eq!(a.storage_load_bytes32(&key), word);
}

#[test]
fn bytes32_load_pads_short_value_on_the_left() {
    let mut a = account();
    let key = b"short".to_vec();
    a.storage_store(&key, &vec![1u8, 2, 3]).unwrap();
    let mut expected = vec![0u8; 29];
    expected.extend(vec![1u8, 2, 3]);
    assert_eq!(a.storage_load_bytes32(&key), expected);
}

#[test]
fn i64_storage_round_trip() {
    let mut a = account();
    let key = b"delta".to_vec();
    for v in [0i64, 42, -42, i64::MIN, i64::MAX] {
        a.storage_store_i64(&key, v).unwrap();
        assert_eq!(a.storage_load_i64(&key), Some(v));
    }
}

#[test]
fn i64_load_of_too_wide_value_is_none() {
    let mut a = account();
    let key = b"wide".to_vec();
    let mut bytes = vec![1u8];
    bytes.extend(vec![0u8; 8]);
    a.storage_store(&key, &bytes).unwrap();
    assert_eq!(a.storage_load_i64(&key), None);
}

#[test]
fn esdt_balance_of_unknown_token_is_zero() {
    let a = account();
    assert!(a.esdt_balance(&b"TOK-1".to_vec(), 0).is_zero());
}

#[test]
fn esdt_set_and_read_balance() {
    let mut a = account();
    a.esdt_set_balance(&b"TOK-1".to_vec(), 5, biguint(77));
    assert_eq!(
        a.esdt_balance(&b"TOK-1".to_vec(), 5).to_bytes_be(),
        vec![77u8]
    );
    // a different nonce of the same token is a different entry
    assert!(a.esdt_balance(&b"TOK-1".to_vec(), 6).is_zero());
}
