use chain_vm_mock::bigint::{BigIntValue, BigUintValue};
use chain_vm_mock::tx_context::{BlockchainRng, TxContext};
use chain_vm_mock::tx_execution::{
    interpret_panic_as_tx_result, interpret_panic_str_as_tx_result, TxAbnormal,
};
use chain_vm_mock::address::VMAddress;
use chain_vm_mock::tx_result::{AsyncCallTxData, TxOutput, TxPanic, TxResult};

#[test]
fn dummy_context_is_self_contained() {
    let (ctx, cache) = TxContext::dummy();
    assert_eq!(ctx.tx_input.from.bytes, vec![b'c'; 32]);
    assert_eq!(ctx.tx_input.from.bytes, ctx.tx_input.to.bytes);
    assert_eq!(ctx.tx_input.tx_hash, b"dummy...........................".to_vec());
    assert!(cache.account_exists(&ctx.tx_input.to));
    let account = cache.get_account(&ctx.tx_input.to);
    assert_eq!(account.nonce, 0);
    assert!(account.egld_balance.is_zero());
    assert!(account.contract_path.is_none());
    assert_eq!(ctx.get_num_arguments(), 0);
    assert!(ctx.get_call_value_big_uint().is_zero());
}

#[test]
fn dummy_bytes32_of_unwritten_key_is_all_zero() {
    let (ctx, cache) = TxContext::dummy();
    let loaded = ctx.storage_load_bytes32(&cache, &b"never written".to_vec());
    assert_eq!(loaded, vec![0u8; 32]);
}

#[test]
fn dummy_context_storage_cycle() {
    let (ctx, mut cache) = TxContext::dummy();
    ctx.storage_store(&mut cache, &b"k".to_vec(), &vec![1u8, 2])
        .unwrap();
    assert_eq!(ctx.storage_load(&cache, &b"k".to_vec()), vec![1u8, 2]);
    assert_eq!(ctx.storage_load_len(&cache, &b"k".to_vec()), 2);
    let err = ctx
        .storage_store(&mut cache, &b"ELRONDkey".to_vec(), &vec![1u8])
        .unwrap_err();
    assert_eq!(err.status, 10);
}

#[test]
fn check_not_payable_rejects_value() {
    let (mut ctx, _cache) = TxContext::dummy();
    assert!(ctx.check_not_payable().is_ok());
    ctx.tx_input.egld_value = BigUintValue::from_bytes_be(&vec![1u8]);
    let err = ctx.check_not_payable().unwrap_err();
    assert_eq!(err.status, 4);
    assert_eq!(err.message, b"function does not accept EGLD payment".to_vec());
}

#[test]
fn argument_accessors_and_out_of_range_i64() {
    let (mut ctx, _cache) = TxContext::dummy();
    ctx.tx_input.add_arg(vec![1u8, 44]);
    let mut wide = vec![1u8];
    wide.extend(vec![0u8; 8]);
    ctx.tx_input.add_arg(wide.clone());
    assert_eq!(ctx.get_num_arguments(), 2);
    assert_eq!(ctx.get_argument_vec_u8(0).unwrap(), vec![1u8, 44]);
    assert_eq!(ctx.get_argument_len(1).unwrap(), 9);
    assert_eq!(ctx.get_argument_i64(0).unwrap(), 300);
    let err = ctx.get_argument_i64(1).unwrap_err();
    assert_eq!(err.status, 10);
    assert_eq!(err.message, b"argument out of range".to_vec());
    let mut padded = vec![0u8; 30];
    padded.extend(vec![1u8, 44]);
    assert_eq!(ctx.get_argument_bytes32(0).unwrap(), padded);
    assert_eq!(ctx.get_argument_big_uint(0).unwrap().to_bytes_be(), vec![1u8, 44]);
    assert_eq!(ctx.get_argument_big_int(0).unwrap().to_i64(), Some(300));
}

#[test]
fn out_of_range_argument_index_is_status_10() {
    let (ctx, _cache) = TxContext::dummy();
    let err = ctx.get_argument_vec_u8(0).unwrap_err();
    assert_eq!(err.status, 10);
    assert_eq!(err.message, b"argument out of range".to_vec());
    assert!(ctx.get_argument_len(3).is_err());
    assert!(ctx.get_argument_bytes32(1).is_err());
    assert!(ctx.get_argument_big_uint(2).is_err());
    assert!(ctx.get_argument_big_int(2).is_err());
    assert!(ctx.get_argument_i64(4).is_err());
}

#[test]
fn finish_values_accumulate_in_order() {
    let (mut ctx, _cache) = TxContext::dummy();
    ctx.finish_slice_u8(&b"one".to_vec());
    ctx.finish_big_uint(&BigUintValue::from_bytes_be(&vec![7u8]));
    ctx.finish_big_int(&BigIntValue::from_i64(-1));
    ctx.finish_i64(300);
    let result = ctx.tx_result;
    assert_eq!(result.result_values.len(), 4);
    assert_eq!(result.result_values[0], b"one".to_vec());
    assert_eq!(result.result_values[1], vec![7u8]);
    assert_eq!(result.result_values[2], vec![255u8]);
    assert_eq!(result.result_values[3], vec![1u8, 44]);
}

#[test]
fn extract_result_leaves_empty_result_behind() {
    let (mut ctx, _cache) = TxContext::dummy();
    ctx.finish_slice_u8(&b"x".to_vec());
    let taken = ctx.extract_result();
    assert_eq!(taken.result_values.len(), 1);
    assert_eq!(ctx.tx_result.result_values.len(), 0);
    assert_eq!(ctx.tx_result.result_status, 0);
}

#[test]
fn into_results_reclaims_result_and_delta() {
    let (mut ctx, mut cache) = TxContext::dummy();
    ctx.finish_slice_u8(&b"out".to_vec());
    ctx.storage_store(&mut cache, &b"k".to_vec(), &vec![3u8]).unwrap();
    let (result, updates) = ctx.into_results(cache);
    assert_eq!(result.result_values, vec![b"out".to_vec()]);
    assert!(!updates.is_empty());
}

#[test]
fn signal_error_is_status_4() {
    let (ctx, _cache) = TxContext::dummy();
    let p = ctx.signal_error(&b"boom".to_vec());
    assert_eq!(p.status, 4);
    assert_eq!(p.message, b"boom".to_vec());
}

#[test]
fn sha256_hook_is_deterministic() {
    let (ctx, _cache) = TxContext::dummy();
    let a = ctx.sha256(&b"data".to_vec());
    let b = ctx.sha256(&b"data".to_vec());
    assert_eq!(a, b);
    assert_eq!(a.len(), 32);
    assert_ne!(a, ctx.keccak256(&b"data".to_vec()));
}

#[test]
fn rng_is_reproducible_for_identical_inputs() {
    let (ctx, cache) = TxContext::dummy();
    let mut rng1 = BlockchainRng::new(&ctx.tx_input, &cache);
    let mut rng2 = BlockchainRng::new(&ctx.tx_input, &cache);
    let a1 = rng1.next_bytes();
    let a2 = rng2.next_bytes();
    assert_eq!(a1, a2);
    let b1 = rng1.next_bytes();
    assert_ne!(a1, b1);
    assert_eq!(b1, rng2.next_bytes());
}

#[test]
fn tx_result_empty_is_all_empty() {
    let r = TxResult::empty();
    assert_eq!(r.result_status, 0);
    assert!(r.result_message.is_empty());
    assert!(r.result_values.is_empty());
    assert!(r.result_logs.is_empty());
}

#[test]
fn tx_result_from_panic_obj_copies_status_and_message() {
    let p = TxPanic::new(10, b"bad".to_vec());
    let r = TxResult::from_panic_obj(&p);
    assert_eq!(r.result_status, 10);
    assert_eq!(r.result_message, b"bad".to_vec());
    assert!(r.result_values.is_empty());
    assert!(r.result_logs.is_empty());
}

#[test]
fn tx_output_from_panic_string_prefixes_message() {
    let out = TxOutput::from_panic_string(&b"oh no".to_vec());
    assert_eq!(out.result.result_status, 4);
    assert_eq!(out.result.result_message, b"panic occurred: oh no".to_vec());
    assert!(out.send_balance_list.is_empty());
    assert!(out.async_call.is_none());
}

#[test]
fn tx_output_buffers_sends_and_async_call() {
    let mut out = TxOutput::empty();
    out.record_send_balance(
        VMAddress::from_bytes(&vec![4u8; 32]),
        BigUintValue::from_bytes_be(&vec![9u8]),
    );
    assert_eq!(out.send_balance_list.len(), 1);
    assert_eq!(out.send_balance_list[0].recipient.bytes, vec![4u8; 32]);
    assert_eq!(out.send_balance_list[0].amount.to_bytes_be(), vec![9u8]);
    out.schedule_async_call(AsyncCallTxData {
        to: VMAddress::from_bytes(&vec![5u8; 32]),
        call_value: BigUintValue::zero(),
        call_data: b"callBack".to_vec(),
        tx_hash: vec![0u8; 32],
    });
    let call = out.async_call.unwrap();
    assert_eq!(call.to.bytes, vec![5u8; 32]);
    assert_eq!(call.call_data, b"callBack".to_vec());
}

#[test]
fn block_info_getters_read_committed_state() {
    let (ctx, mut cache) = chain_vm_mock::tx_context::TxContext::dummy();
    cache.committed.current_block_info.block_timestamp = 1234;
    cache.committed.current_block_info.block_nonce = 5;
    cache.committed.current_block_info.block_round = 6;
    cache.committed.current_block_info.block_epoch = 7;
    assert_eq!(ctx.get_block_timestamp(&cache), 1234);
    assert_eq!(ctx.get_block_nonce(&cache), 5);
    assert_eq!(ctx.get_block_round(&cache), 6);
    assert_eq!(ctx.get_block_epoch(&cache), 7);
}

#[test]
fn panic_translation_priority_order() {
    let structured = interpret_panic_as_tx_result(
        TxAbnormal::Panic(TxPanic::new(10, b"kept as is".to_vec())),
        true,
    );
    assert_eq!(structured.status, 10);
    assert_eq!(structured.message, b"kept as is".to_vec());

    let text = interpret_panic_as_tx_result(TxAbnormal::Message(b"oops".to_vec()), true);
    assert_eq!(text.status, 4);
    assert_eq!(text.message, b"panic occurred: oops".to_vec());

    let unknown = interpret_panic_as_tx_result(TxAbnormal::Unknown, true);
    assert_eq!(unknown.status, 4);
    assert_eq!(unknown.message, b"unknown panic object".to_vec());
}

#[test]
fn panic_str_translation_respects_flag() {
    let with_detail = interpret_panic_str_as_tx_result(&b"why".to_vec(), true);
    assert_eq!(with_detail.message, b"panic occurred: why".to_vec());
    let without_detail = interpret_panic_str_as_tx_result(&b"why".to_vec(), false);
    assert_eq!(without_detail.message, b"panic occurred".to_vec());
    assert_eq!(without_detail.status, 4);
}
