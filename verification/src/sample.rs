//! A small reference contract: enough endpoints to exercise dispatch,
//! storage access, result values and every shape of abnormal termination.

use vstd::prelude::*;

use crate::msg;
use crate::tx_cache::TxCache;
use crate::tx_context::TxContextStack;
use crate::tx_execution::{CallOutcome, ContractCode, TxAbnormal};

verus! {

/// `"echo"`: return the first argument unchanged.
fn name_echo() -> (r: Vec<u8>) {
    let mut v: Vec<u8> = Vec::new();
    v.push(101);
    v.push(99);
    v.push(104);
    v.push(111);
    v
}

/// `"store"`: write argument 1 under the storage key in argument 0.
fn name_store() -> (r: Vec<u8>) {
    let mut v: Vec<u8> = Vec::new();
    v.push(115);
    v.push(116);
    v.push(111);
    v.push(114);
    v.push(101);
    v
}

/// `"load"`: return the storage value under the key in argument 0.
fn name_load() -> (r: Vec<u8>) {
    let mut v: Vec<u8> = Vec::new();
    v.push(108);
    v.push(111);
    v.push(97);
    v.push(100);
    v
}

/// `"fail"`: terminate abnormally with the first argument as plain text.
fn name_fail() -> (r: Vec<u8>) {
    let mut v: Vec<u8> = Vec::new();
    v.push(102);
    v.push(97);
    v.push(105);
    v.push(108);
    v
}

/// A contract with four endpoints beside the initializer: `echo`,
/// `store`, `load` and `fail`; any other name is not found.
pub struct SampleContract;

impl ContractCode for SampleContract {
    fn call(
        &self,
        _contract_identifier: &Vec<u8>,
        stack: &mut TxContextStack,
        cache: &mut TxCache,
    ) -> (outcome: CallOutcome) {
        let mut ctx = stack.take_current();
        let func = crate::bytes::copy_bytes(&ctx.tx_input.func_name);
        let outcome: CallOutcome = if func == msg::endpoint_init_vec() {
            CallOutcome::Completed
        } else if func == name_echo() {
            match ctx.get_argument_vec_u8(0) {
                Ok(arg) => {
                    ctx.finish_slice_u8(&arg);
                    CallOutcome::Completed
                },
                Err(p) => CallOutcome::Aborted(TxAbnormal::Panic(p)),
            }
        } else if func == name_store() {
            match (ctx.get_argument_vec_u8(0), ctx.get_argument_vec_u8(1)) {
                (Ok(key), Ok(value)) => {
                    let stored = ctx.storage_store(cache, &key, &value);
                    match stored {
                        Ok(_) => CallOutcome::Completed,
                        Err(p) => CallOutcome::Aborted(TxAbnormal::Panic(p)),
                    }
                },
                (Err(p), _) => CallOutcome::Aborted(TxAbnormal::Panic(p)),
                (_, Err(p)) => CallOutcome::Aborted(TxAbnormal::Panic(p)),
            }
        } else if func == name_load() {
            match ctx.get_argument_vec_u8(0) {
                Ok(key) => {
                    let value = ctx.storage_load(cache, &key);
                    ctx.finish_slice_u8(&value);
                    CallOutcome::Completed
                },
                Err(p) => CallOutcome::Aborted(TxAbnormal::Panic(p)),
            }
        } else if func == name_fail() {
            match ctx.get_argument_vec_u8(0) {
                Ok(text) => CallOutcome::Aborted(TxAbnormal::Message(text)),
                Err(_) => CallOutcome::Aborted(TxAbnormal::Unknown),
            }
        } else {
            CallOutcome::NotFound
        };
        stack.restore_current(ctx);
        proof {
            assert forall|i: int| 0 <= i < old(stack).frames@.len() - 1 implies stack.frames@[i]
                == old(stack).frames@[i] by {
                assert(stack.frames@.drop_last()[i] == old(stack).frames@.drop_last()[i]);
                assert(old(stack).frames@.drop_last()[i] == old(stack).frames@[i]);
            }
        }
        outcome
    }
}

} // verus!
