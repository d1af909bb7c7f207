use chain_vm_mock::account::AccountData;
use chain_vm_mock::address::VMAddress;
use chain_vm_mock::bigint::BigUintValue;
use chain_vm_mock::sample::SampleContract;
use chain_vm_mock::tx_cache::{BlockchainState, TxCache};
use chain_vm_mock::tx_execution::default_execution;
use chain_vm_mock::tx_input::TxInput;

fn biguint(n: u64) -> BigUintValue {
    BigUintValue::from_bytes_be(&n.to_be_bytes().to_vec())
}

fn user_address(fill: u8) -> VMAddress {
    VMAddress::from_bytes(&vec![fill; 32])
}

fn contract_address(fill: u8) -> VMAddress {
    let mut v = vec![0u8; 8];
    v.extend(vec![fill; 24]);
    VMAddress::from_bytes(&v)
}

fn cache_with(accounts: Vec<AccountData>) -> TxCache {
    let mut state = BlockchainState::new();
    for a in accounts {
        state.put_account(a);
    }
    TxCache::new(state)
}

fn plain_input(from: &VMAddress, to: &VMAddress, value: u64) -> TxInput {
    TxInput {
        from: from.dup(),
        to: to.dup(),
        egld_value: biguint(value),
        esdt_values: Vec::new(),
        func_name: Vec::new(),
        args: Vec::new(),
        gas_limit: 1000,
        gas_price: 1,
        tx_hash: vec![0x11u8; 32],
    }
}

#[test]
fn transfer_with_insufficient_funds_leaves_cache_unchanged() {
    let from = user_address(1);
    let to = user_address(2);
    let mut a = AccountData::new(from.dup());
    a.egld_balance = biguint(10);
    let b = AccountData::new(to.dup());
    let mut cache = cache_with(vec![a, b]);

    let err = cache
        .transfer_egld_balance(&from, &to, &biguint(25))
        .unwrap_err();
    assert_eq!(err.status, 10);
    assert_eq!(err.message, b"insufficient funds".to_vec());
    assert_eq!(cache.get_account(&from).egld_balance.to_bytes_be(), vec![10u8]);
    assert!(cache.get_account(&to).egld_balance.is_zero());
    let updates = cache.into_blockchain_updates();
    assert!(updates.is_empty());
}

#[test]
fn transfer_moves_both_legs() {
    let from = user_address(1);
    let to = user_address(2);
    let mut a = AccountData::new(from.dup());
    a.egld_balance = biguint(100);
    let b = AccountData::new(to.dup());
    let mut cache = cache_with(vec![a, b]);

    cache.transfer_egld_balance(&from, &to, &biguint(30)).unwrap();
    assert_eq!(cache.get_account(&from).egld_balance.to_bytes_be(), vec![70u8]);
    assert_eq!(cache.get_account(&to).egld_balance.to_bytes_be(), vec![30u8]);
}

#[test]
fn self_transfer_nets_to_no_change() {
    let from = user_address(1);
    let mut a = AccountData::new(from.dup());
    a.egld_balance = biguint(50);
    let mut cache = cache_with(vec![a]);
    cache.transfer_egld_balance(&from, &from, &biguint(20)).unwrap();
    assert_eq!(cache.get_account(&from).egld_balance.to_bytes_be(), vec![50u8]);
}

#[test]
fn default_execution_insufficient_funds_status_nonzero_no_updates() {
    let from = user_address(1);
    let to = user_address(2);
    let mut a = AccountData::new(from.dup());
    a.egld_balance = biguint(10);
    let b = AccountData::new(to.dup());
    let cache = cache_with(vec![a, b]);
    let input = plain_input(&from, &to, 25);

    let (result, updates) = default_execution(&SampleContract, true, input, cache);
    assert_eq!(result.result_status, 10);
    assert_eq!(result.result_message, b"insufficient funds".to_vec());
    assert!(result.result_values.is_empty());
    assert!(result.result_logs.is_empty());
    assert!(updates.is_empty());
}

#[test]
fn plain_transfer_from_user_produces_empty_result() {
    let from = user_address(1);
    let to = user_address(2);
    let mut a = AccountData::new(from.dup());
    a.egld_balance = biguint(100);
    let b = AccountData::new(to.dup());
    let cache = cache_with(vec![a, b]);
    let input = plain_input(&from, &to, 30);

    let (result, updates) = default_execution(&SampleContract, true, input, cache);
    assert_eq!(result.result_status, 0);
    assert!(result.result_logs.is_empty());
    assert!(result.result_values.is_empty());
    let to_after = updates.accounts.get(&to.to_vec()).unwrap();
    assert_eq!(to_after.egld_balance.to_bytes_be(), vec![30u8]);
    let from_after = updates.accounts.get(&from.to_vec()).unwrap();
    assert_eq!(from_after.egld_balance.to_bytes_be(), vec![70u8]);
}

#[test]
fn contract_sender_transfer_prepends_transfer_value_log() {
    let from = contract_address(9);
    let to = user_address(2);
    let mut a = AccountData::new(from.dup());
    a.egld_balance = biguint(300);
    let b = AccountData::new(to.dup());
    let cache = cache_with(vec![a, b]);
    let input = plain_input(&from, &to, 260);

    let (result, _updates) = default_execution(&SampleContract, true, input, cache);
    assert_eq!(result.result_status, 0);
    assert_eq!(result.result_logs.len(), 1);
    let log = &result.result_logs[0];
    assert_eq!(log.address.bytes, vec![0u8; 32]);
    assert_eq!(log.endpoint, b"transferValueOnly".to_vec());
    assert_eq!(log.topics.len(), 3);
    assert_eq!(log.topics[0], from.to_vec());
    assert_eq!(log.topics[1], to.to_vec());
    assert_eq!(log.topics[2], vec![1u8, 4]); // 260 as big-endian bytes
    assert!(log.data.is_empty());
}

#[test]
fn zero_value_contract_sender_adds_no_log() {
    let from = contract_address(9);
    let to = user_address(2);
    let a = AccountData::new(from.dup());
    let b = AccountData::new(to.dup());
    let cache = cache_with(vec![a, b]);
    let input = plain_input(&from, &to, 0);

    let (result, _updates) = default_execution(&SampleContract, true, input, cache);
    assert_eq!(result.result_status, 0);
    assert!(result.result_logs.is_empty());
}

#[test]
fn esdt_transfer_success_and_insufficient() {
    let from = user_address(1);
    let to = user_address(2);
    let mut a = AccountData::new(from.dup());
    a.esdt_set_balance(&b"TOK-1".to_vec(), 0, biguint(40));
    let b = AccountData::new(to.dup());
    let mut cache = cache_with(vec![a, b]);

    cache
        .transfer_esdt_balance(&from, &to, &b"TOK-1".to_vec(), 0, &biguint(15))
        .unwrap();
    assert_eq!(
        cache
            .get_account(&from)
            .esdt_balance(&b"TOK-1".to_vec(), 0)
            .to_bytes_be(),
        vec![25u8]
    );
    assert_eq!(
        cache
            .get_account(&to)
            .esdt_balance(&b"TOK-1".to_vec(), 0)
            .to_bytes_be(),
        vec![15u8]
    );

    let err = cache
        .transfer_esdt_balance(&from, &to, &b"TOK-1".to_vec(), 0, &biguint(100))
        .unwrap_err();
    assert_eq!(err.status, 10);
    assert_eq!(err.message, b"insufficient funds".to_vec());
}

#[test]
fn failing_esdt_leg_aborts_whole_transaction() {
    let from = user_address(1);
    let to = user_address(2);
    let mut a = AccountData::new(from.dup());
    a.egld_balance = biguint(100);
    a.esdt_set_balance(&b"TOK-1".to_vec(), 0, biguint(5));
    let b = AccountData::new(to.dup());
    let cache = cache_with(vec![a, b]);
    let mut input = plain_input(&from, &to, 10);
    input.esdt_values.push(chain_vm_mock::tx_input::TxEsdtTransfer {
        token_identifier: b"TOK-1".to_vec(),
        nonce: 0,
        value: biguint(50),
    });

    let (result, updates) = default_execution(&SampleContract, true, input, cache);
    assert_eq!(result.result_status, 10);
    assert_eq!(result.result_message, b"insufficient funds".to_vec());
    assert!(updates.is_empty());
}
