use chain_vm_mock::account::AccountData;
use chain_vm_mock::address::{derive_new_address, VMAddress};
use chain_vm_mock::bigint::BigUintValue;
use chain_vm_mock::sample::SampleContract;
use chain_vm_mock::tx_cache::{BlockchainState, TxCache};
use chain_vm_mock::tx_context::TxContextStack;
use chain_vm_mock::tx_execution::{default_execution, deploy_contract, execute_tx_context};
use chain_vm_mock::tx_input::TxInput;

fn biguint(n: u64) -> BigUintValue {
    BigUintValue::from_bytes_be(&n.to_be_bytes().to_vec())
}

fn user_address(fill: u8) -> VMAddress {
    VMAddress::from_bytes(&vec![fill; 32])
}

fn contract_address(fill: u8) -> VMAddress {
    let mut v = vec![0u8; 8];
    v.extend(vec![fill; 24]);
    VMAddress::from_bytes(&v)
}

fn contract_account(address: &VMAddress) -> AccountData {
    let mut a = AccountData::new(address.dup());
    a.contract_path = Some(b"sample-code".to_vec());
    a
}

fn world(accounts: Vec<AccountData>) -> TxCache {
    let mut state = BlockchainState::new();
    for a in accounts {
        state.put_account(a);
    }
    TxCache::new(state)
}

fn call_input(from: &VMAddress, to: &VMAddress, func: &[u8], args: Vec<Vec<u8>>) -> TxInput {
    TxInput {
        from: from.dup(),
        to: to.dup(),
        egld_value: BigUintValue::zero(),
        esdt_values: Vec::new(),
        func_name: func.to_vec(),
        args,
        gas_limit: 1000,
        gas_price: 1,
        tx_hash: vec![0x22u8; 32],
    }
}

#[test]
fn missing_endpoint_gives_status_1_and_fixed_message() {
    let from = user_address(1);
    let to = contract_address(5);
    let cache = world(vec![AccountData::new(from.dup()), contract_account(&to)]);
    let input = call_input(&from, &to, b"noSuchEndpoint", Vec::new());

    let (result, _updates) = default_execution(&SampleContract, true, input, cache);
    assert_eq!(result.result_status, 1);
    assert_eq!(result.result_message, b"invalid function (not found)".to_vec());
    assert!(result.result_values.is_empty());
    assert!(result.result_logs.is_empty());
}

#[test]
fn text_panic_with_detail_enabled_gets_prefixed_message() {
    let from = user_address(1);
    let to = contract_address(5);
    let cache = world(vec![AccountData::new(from.dup()), contract_account(&to)]);
    let input = call_input(&from, &to, b"fail", vec![b"sample text".to_vec()]);

    let (result, _updates) = default_execution(&SampleContract, true, input, cache);
    assert_eq!(result.result_status, 4);
    assert_eq!(result.result_message, b"panic occurred: sample text".to_vec());
    assert!(result.result_values.is_empty());
}

#[test]
fn text_panic_with_detail_disabled_gets_generic_message() {
    let from = user_address(1);
    let to = contract_address(5);
    let cache = world(vec![AccountData::new(from.dup()), contract_account(&to)]);
    let input = call_input(&from, &to, b"fail", vec![b"secret detail".to_vec()]);

    let (result, _updates) = default_execution(&SampleContract, false, input, cache);
    assert_eq!(result.result_status, 4);
    assert_eq!(result.result_message, b"panic occurred".to_vec());
}

#[test]
fn unknown_panic_shape_gets_fixed_message() {
    let from = user_address(1);
    let to = contract_address(5);
    let cache = world(vec![AccountData::new(from.dup()), contract_account(&to)]);
    // "fail" without arguments aborts with the unknown shape
    let input = call_input(&from, &to, b"fail", Vec::new());

    let (result, _updates) = default_execution(&SampleContract, true, input, cache);
    assert_eq!(result.result_status, 4);
    assert_eq!(result.result_message, b"unknown panic object".to_vec());
}

#[test]
fn echo_returns_its_argument() {
    let from = user_address(1);
    let to = contract_address(5);
    let cache = world(vec![AccountData::new(from.dup()), contract_account(&to)]);
    let input = call_input(&from, &to, b"echo", vec![b"ping".to_vec()]);

    let (result, _updates) = default_execution(&SampleContract, true, input, cache);
    assert_eq!(result.result_status, 0);
    assert_eq!(result.result_values, vec![b"ping".to_vec()]);
}

#[test]
fn store_endpoint_writes_account_storage() {
    let from = user_address(1);
    let to = contract_address(5);
    let cache = world(vec![AccountData::new(from.dup()), contract_account(&to)]);
    let input = call_input(
        &from,
        &to,
        b"store",
        vec![b"greeting".to_vec(), b"hello".to_vec()],
    );

    let (result, updates) = default_execution(&SampleContract, true, input, cache);
    assert_eq!(result.result_status, 0);
    let stored = updates.accounts.get(&to.to_vec()).unwrap();
    assert_eq!(stored.storage_load(&b"greeting".to_vec()), b"hello".to_vec());
}

#[test]
fn store_endpoint_on_reserved_key_gives_status_10() {
    let from = user_address(1);
    let to = contract_address(5);
    let cache = world(vec![AccountData::new(from.dup()), contract_account(&to)]);
    let input = call_input(
        &from,
        &to,
        b"store",
        vec![b"ELRONDowned".to_vec(), b"x".to_vec()],
    );

    let (result, _updates) = default_execution(&SampleContract, true, input, cache);
    assert_eq!(result.result_status, 10);
    assert_eq!(
        result.result_message,
        b"cannot write to storage under Elrond reserved key".to_vec()
    );
}

#[test]
fn deploy_gives_contract_shaped_address_and_runs_init() {
    let creator = user_address(3);
    let mut a = AccountData::new(creator.dup());
    a.egld_balance = biguint(100);
    let cache = world(vec![a]);
    let mut input = call_input(&creator, &creator, b"", Vec::new());
    input.egld_value = biguint(40);

    let (result, new_address, updates) =
        deploy_contract(&SampleContract, true, input, b"sample-code".to_vec(), cache);
    assert_eq!(result.result_status, 0);
    assert!(new_address.is_smart_contract_address());
    let created = updates.accounts.get(&new_address.to_vec()).unwrap();
    assert_eq!(created.contract_path, Some(b"sample-code".to_vec()));
    assert_eq!(created.contract_owner.as_ref().unwrap().bytes, creator.bytes);
    assert_eq!(created.egld_balance.to_bytes_be(), vec![40u8]);
    let debited = updates.accounts.get(&creator.to_vec()).unwrap();
    assert_eq!(debited.egld_balance.to_bytes_be(), vec![60u8]);
}

#[test]
fn deploy_with_insufficient_funds_fails_without_updates() {
    let creator = user_address(3);
    let mut a = AccountData::new(creator.dup());
    a.egld_balance = biguint(5);
    let cache = world(vec![a]);
    let mut input = call_input(&creator, &creator, b"", Vec::new());
    input.egld_value = biguint(40);

    let (result, new_address, updates) =
        deploy_contract(&SampleContract, true, input, b"sample-code".to_vec(), cache);
    assert_eq!(result.result_status, 10);
    assert_eq!(result.result_message, b"insufficient funds".to_vec());
    assert_eq!(new_address.bytes, vec![0u8; 32]);
    assert!(updates.is_empty());
}

#[test]
fn sequential_nonces_never_collide() {
    let creator = user_address(3);
    for n in 0u64..5 {
        let a1 = derive_new_address(&creator, n);
        let a2 = derive_new_address(&creator, n + 1);
        assert_ne!(a1.bytes, a2.bytes);
        assert!(a1.is_smart_contract_address());
    }
}

#[test]
fn two_deploys_with_increasing_nonce_get_distinct_addresses() {
    let creator = user_address(3);
    let mut a = AccountData::new(creator.dup());
    a.egld_balance = biguint(100);
    let cache = world(vec![a]);
    let input = call_input(&creator, &creator, b"", Vec::new());
    let (_r1, addr1, _u1) =
        deploy_contract(&SampleContract, true, input, b"sample-code".to_vec(), cache);

    // the creator's nonce has advanced before the second deploy
    let mut a2 = AccountData::new(creator.dup());
    a2.egld_balance = biguint(100);
    a2.nonce = 1;
    let cache2 = world(vec![a2]);
    let input2 = call_input(&creator, &creator, b"", Vec::new());
    let (_r2, addr2, _u2) =
        deploy_contract(&SampleContract, true, input2, b"sample-code".to_vec(), cache2);

    assert_ne!(addr1.bytes, addr2.bytes);
}

#[test]
fn nested_dispatch_restores_outer_scratch_state() {
    let from = user_address(1);
    let to = contract_address(5);
    let mut cache = world(vec![AccountData::new(from.dup()), contract_account(&to)]);

    let mut stack = TxContextStack::new();
    stack.push_frame(call_input(&from, &to, b"outer", Vec::new()), &cache);
    // give the outer frame some scratch state
    let mut outer = stack.take_current();
    outer.managed_types.insert_buffer(b"outer scratch".to_vec());
    stack.restore_current(outer);
    assert_eq!(stack.depth(), 1);

    // an inner dispatch pushes and pops its own frame with its own scratch
    let inner_input = call_input(&from, &to, b"echo", vec![b"inner".to_vec()]);
    let inner_result =
        execute_tx_context(&SampleContract, true, inner_input, &mut stack, &mut cache);
    assert_eq!(inner_result.result_status, 0);

    // the outer frame stands exactly as it was
    assert_eq!(stack.depth(), 1);
    let outer = stack.current();
    assert_eq!(outer.managed_types.buffer_count(), 1);
    assert_eq!(outer.managed_types.get_buffer(0), b"outer scratch".to_vec());
    assert_eq!(outer.tx_input.func_name, b"outer".to_vec());
    assert_eq!(outer.tx_result.result_values.len(), 0);
}

#[test]
fn push_resets_scratch_for_each_new_frame() {
    let from = user_address(1);
    let to = contract_address(5);
    let cache = world(vec![AccountData::new(from.dup()), contract_account(&to)]);
    let mut stack = TxContextStack::new();
    stack.push_frame(call_input(&from, &to, b"a", Vec::new()), &cache);
    let mut first = stack.take_current();
    first.managed_types.insert_buffer(b"one".to_vec());
    stack.restore_current(first);

    stack.push_frame(call_input(&from, &to, b"b", Vec::new()), &cache);
    assert_eq!(stack.current().managed_types.buffer_count(), 0);
    let popped = stack.pop_frame();
    assert_eq!(popped.tx_input.func_name, b"b".to_vec());
    assert_eq!(stack.current().managed_types.buffer_count(), 1);
    assert_eq!(stack.current().managed_types.get_buffer(0), b"one".to_vec());
}

#[test]
fn plain_transfer_delta_holds_exactly_the_touched_accounts() {
    let from = user_address(1);
    let to = user_address(2);
    let mut a = AccountData::new(from.dup());
    a.egld_balance = biguint(100);
    let b = AccountData::new(to.dup());
    let cache = world(vec![a, b]);
    let mut input = call_input(&from, &to, b"", Vec::new());
    input.egld_value = biguint(30);

    let (result, updates) = default_execution(&SampleContract, true, input, cache);
    assert_eq!(result.result_status, 0);
    // exactly the sender and the recipient, with post-transfer balances
    assert_eq!(updates.accounts.entries.len(), 2);
    let from_after = updates.accounts.get(&from.to_vec()).unwrap();
    assert_eq!(from_after.egld_balance.to_bytes_be(), vec![70u8]);
    let to_after = updates.accounts.get(&to.to_vec()).unwrap();
    assert_eq!(to_after.egld_balance.to_bytes_be(), vec![30u8]);
}

#[test]
fn equal_inputs_give_identical_plain_transfer_output() {
    let from = user_address(1);
    let to = user_address(2);
    let run = || {
        let mut a = AccountData::new(from.dup());
        a.egld_balance = biguint(100);
        let b = AccountData::new(to.dup());
        let cache = world(vec![a, b]);
        let mut input = call_input(&from, &to, b"", Vec::new());
        input.egld_value = biguint(30);
        default_execution(&SampleContract, true, input, cache)
    };
    let (r1, u1) = run();
    let (r2, u2) = run();
    assert_eq!(r1.result_status, r2.result_status);
    assert_eq!(r1.result_message, r2.result_message);
    assert_eq!(u1.accounts.entries.len(), u2.accounts.entries.len());
    for e in &u1.accounts.entries {
        let other = u2.accounts.get(&e.key).unwrap();
        assert_eq!(other.egld_balance.to_bytes_be(), e.value.egld_balance.to_bytes_be());
    }
}
