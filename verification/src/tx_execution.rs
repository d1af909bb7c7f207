//! The execution engine: endpoint dispatch, the translation of abnormal
//! terminations into results, and the two top-level transaction flows
//! (general execution and deploy).
//!
//! An abnormal termination raised during dispatch is a value of
//! [`TxAbnormal`], never an escaping fault. The translation into a
//! [`TxPanic`] follows a fixed priority: a structured carrier is used as
//! it stands; a textual message becomes a status-4 user error, prefixed
//! when diagnostic detail is enabled; anything else becomes the generic
//! status-4 unknown-panic error. An endpoint that does not exist is
//! distinct: status 1, never conflated with a user failure.

use vstd::prelude::*;

use crate::account::AccountModel;
use crate::address::{is_sc_address, new_address_seq, VMAddress};
use crate::bigint::BigUintValue;
use crate::bytes::append_bytes;
use crate::msg;
use crate::tx_cache::{BlockchainUpdate, TxCache};
use crate::tx_context::TxContextStack;
use crate::tx_input::{EsdtTransferModel, TxInput};
use crate::tx_result::{
    empty_result_model, panic_result_model, LogModel, ResultModel, TxLog, TxPanic, TxResult,
    STATUS_FUNCTION_NOT_FOUND, STATUS_USER_ERROR, STATUS_VM_ERROR,
};

verus! {

/// The shapes an abnormal termination can take, in translation priority
/// order: the structured carrier, a plain textual message, anything else.
pub enum TxAbnormal {
    Panic(TxPanic),
    Message(Vec<u8>),
    Unknown,
}

/// What one dispatched call reported: it ran to completion, no endpoint of
/// the requested name exists, or it terminated abnormally.
pub enum CallOutcome {
    Completed,
    NotFound,
    Aborted(TxAbnormal),
}

/// The status an abnormal termination translates to.
pub open spec fn translated_panic_status(panic: TxAbnormal) -> u64 {
    match panic {
        TxAbnormal::Panic(p) => p.status,
        TxAbnormal::Message(_) => STATUS_USER_ERROR,
        TxAbnormal::Unknown => STATUS_USER_ERROR,
    }
}

/// The message an abnormal termination translates to; the text of a plain
/// message is only carried through when diagnostic detail is enabled.
pub open spec fn translated_panic_message(panic: TxAbnormal, panic_message_flag: bool) -> Seq<u8> {
    match panic {
        TxAbnormal::Panic(p) => p.message@,
        TxAbnormal::Message(m) => if panic_message_flag {
            msg::msg_panic_prefix() + m@
        } else {
            msg::msg_panic_generic()
        },
        TxAbnormal::Unknown => msg::msg_unknown_panic(),
    }
}

/// Translate a plain textual panic: a user error whose message is the
/// fixed prefix followed by the text when diagnostic detail is enabled,
/// and a generic placeholder otherwise.
pub fn interpret_panic_str_as_tx_result(panic_str: &Vec<u8>, panic_message_flag: bool) -> (r:
    TxPanic)
    ensures
        r.status == STATUS_USER_ERROR,
        r.message@ == translated_panic_message(TxAbnormal::Message(*panic_str), panic_message_flag),
{
    if panic_message_flag {
        let mut message = msg::msg_panic_prefix_vec();
        append_bytes(&mut message, panic_str);
        proof {
            assert(message@ =~= msg::msg_panic_prefix() + panic_str@);
        }
        TxPanic::user_error(message)
    } else {
        TxPanic::user_error(msg::msg_panic_generic_vec())
    }
}

/// Translate any abnormal termination into the structured carrier,
/// following the three-tier priority: a structured carrier as it stands;
/// a textual message as a prefixed user error; anything else as the
/// generic unknown-panic user error.
pub fn interpret_panic_as_tx_result(panic: TxAbnormal, panic_message_flag: bool) -> (r: TxPanic)
    ensures
        r.status == translated_panic_status(panic),
        r.message@ == translated_panic_message(panic, panic_message_flag),
{
    match panic {
        TxAbnormal::Panic(p) => p,
        TxAbnormal::Message(m) => interpret_panic_str_as_tx_result(&m, panic_message_flag),
        TxAbnormal::Unknown => TxPanic::user_error(msg::msg_unknown_panic_vec()),
    }
}

/// The result one dispatch yields, given what the call reported and what
/// it had accumulated: a completed call keeps its accumulated result; a
/// missing endpoint or an abnormal termination replaces it wholesale with
/// the panic-derived result, so no partial values or logs are observable.
pub open spec fn outcome_result_model(
    outcome: CallOutcome,
    accumulated: ResultModel,
    panic_message_flag: bool,
) -> ResultModel {
    match outcome {
        CallOutcome::Completed => accumulated,
        CallOutcome::NotFound => panic_result_model(
            STATUS_FUNCTION_NOT_FOUND,
            msg::msg_invalid_function(),
        ),
        CallOutcome::Aborted(a) => panic_result_model(
            translated_panic_status(a),
            translated_panic_message(a, panic_message_flag),
        ),
    }
}

/// Turn what a dispatched call reported into its final result.
///
/// Dispatch to a non-existent endpoint yields status 1 with the fixed
/// message, and no logs or return values; an abnormal termination yields
/// the translated panic, likewise discarding the accumulated result.
pub fn call_outcome_to_result(
    outcome: CallOutcome,
    accumulated: TxResult,
    panic_message_flag: bool,
) -> (r: TxResult)
    ensures
        r@ == outcome_result_model(outcome, accumulated@, panic_message_flag),
{
    match outcome {
        CallOutcome::Completed => accumulated,
        CallOutcome::NotFound => {
            let panic = TxPanic::new(
                STATUS_FUNCTION_NOT_FOUND,
                msg::msg_invalid_function_vec(),
            );
            TxResult::from_panic_obj(&panic)
        },
        CallOutcome::Aborted(a) => {
            let panic = interpret_panic_as_tx_result(a, panic_message_flag);
            TxResult::from_panic_obj(&panic)
        },
    }
}

/// Contract code, as its users supply it: the function selector of one or
/// more deployed contracts. The engine resolves the contract identifier
/// and the endpoint name (in the top frame's input) and the code reports
/// how the call ended; side effects go through the top frame's context
/// and the shared cache. The code may work on the top frame and extend
/// the ledger, but never touches enclosing frames, never drops accounts
/// (the cache's working overlay only grows), and never writes the
/// committed store.
pub trait ContractCode {
    fn call(&self, contract_identifier: &Vec<u8>, stack: &mut TxContextStack, cache: &mut TxCache)
        -> (outcome: CallOutcome)
        requires
            old(stack).frames@.len() > 0,
            old(stack).frames@.last().wf(),
            old(cache).wf(),
            old(cache).state().contains_key(old(stack).frames@.last().tx_input.to@),
        ensures
            final(stack).frames@.len() == old(stack).frames@.len(),
            forall|i: int|
                0 <= i < old(stack).frames@.len() - 1 ==> final(stack).frames@[i] == old(
                    stack,
                ).frames@[i],
            final(stack).frames@.last().tx_input == old(stack).frames@.last().tx_input,
            final(cache).wf(),
            final(cache).committed == old(cache).committed,
            forall|k: Seq<u8>|
                old(cache).state().contains_key(k) ==> final(cache).state().contains_key(k),
            forall|k: Seq<u8>|
                old(cache).working@.contains_key(k) ==> final(cache).working@.contains_key(k),
    ;
}

/// The deployed-contract reference of the account a call targets. The
/// target must have been pre-validated as a contract: a plain account
/// here is a caller bug, not a simulated on-chain failure.
pub fn get_contract_identifier(tx_input: &TxInput, cache: &TxCache) -> (r: Vec<u8>)
    requires
        cache.wf(),
        cache.state().contains_key(tx_input.to@),
        cache.state()[tx_input.to@].contract_path is Some,
    ensures
        cache.state()[tx_input.to@].contract_path matches Some(p) ==> r@ == p,
{
    let account = cache.get_account(&tx_input.to);
    match account.contract_path {
        Some(p) => p,
        None => {
            proof {
                assert(false);
            }
            Vec::new()
        },
    }
}

/// The actual execution and the extraction/wrapping of the result: run
/// the selector on the top frame, take the frame's accumulated result,
/// and let the outcome decide whether it stands or is replaced by a
/// panic-derived result.
pub fn execute_contract_instance_endpoint<C: ContractCode>(
    code: &C,
    contract_identifier: &Vec<u8>,
    panic_message_flag: bool,
    stack: &mut TxContextStack,
    cache: &mut TxCache,
) -> (r: TxResult)
    requires
        old(stack).frames@.len() > 0,
        old(stack).frames@.last().wf(),
        old(cache).wf(),
        old(cache).state().contains_key(old(stack).frames@.last().tx_input.to@),
    ensures
        final(stack).frames@.len() == old(stack).frames@.len(),
        forall|i: int|
            0 <= i < old(stack).frames@.len() - 1 ==> final(stack).frames@[i] == old(
                stack,
            ).frames@[i],
        final(stack).frames@.last().tx_input == old(stack).frames@.last().tx_input,
        final(stack).frames@.last().tx_result@ == empty_result_model(),
        final(cache).wf(),
        final(cache).committed == old(cache).committed,
        forall|k: Seq<u8>|
            old(cache).state().contains_key(k) ==> final(cache).state().contains_key(k),
        forall|k: Seq<u8>|
            old(cache).working@.contains_key(k) ==> final(cache).working@.contains_key(k),
{
    let outcome = code.call(contract_identifier, stack, cache);
    let ghost mid_frames = stack.frames@;
    let mut frame = stack.take_current();
    let accumulated = frame.extract_result();
    stack.restore_current(frame);
    proof {
        assert forall|i: int| 0 <= i < old(stack).frames@.len() - 1 implies stack.frames@[i]
            == old(stack).frames@[i] by {
            assert(stack.frames@.drop_last()[i] == mid_frames.drop_last()[i]);
            assert(mid_frames.drop_last()[i] == mid_frames[i]);
        }
    }
    call_outcome_to_result(outcome, accumulated, panic_message_flag)
}

/// Run contract code for one call: a fresh context for the input goes on
/// the stack, the selector runs, and the frame comes off again. The stack
/// stands exactly as it was — an inner call never leaks scratch state
/// into the enclosing frame.
pub fn execute_tx_context<C: ContractCode>(
    code: &C,
    panic_message_flag: bool,
    tx_input: TxInput,
    stack: &mut TxContextStack,
    cache: &mut TxCache,
) -> (r: TxResult)
    requires
        tx_input.wf(),
        old(cache).wf(),
        old(cache).state().contains_key(tx_input.to@),
        old(cache).state()[tx_input.to@].contract_path is Some,
    ensures
        final(stack).frames@ =~= old(stack).frames@,
        final(cache).wf(),
        final(cache).committed == old(cache).committed,
        forall|k: Seq<u8>|
            old(cache).state().contains_key(k) ==> final(cache).state().contains_key(k),
        forall|k: Seq<u8>|
            old(cache).working@.contains_key(k) ==> final(cache).working@.contains_key(k),
{
    let contract_identifier = get_contract_identifier(&tx_input, cache);
    stack.push_frame(tx_input, &*cache);
    let r = execute_contract_instance_endpoint(
        code,
        &contract_identifier,
        panic_message_flag,
        stack,
        cache,
    );
    let _finished = stack.pop_frame();
    proof {
        assert(stack.frames@ =~= old(stack).frames@);
    }
    r
}

/// Register a freshly deployed contract account: zero balance, empty
/// storage, the given code reference and owner. The address must be free —
/// a deploy collision is fatal, never a silent overwrite.
pub fn create_new_contract(
    cache: &mut TxCache,
    new_address: &VMAddress,
    contract_path: Vec<u8>,
    contract_owner: VMAddress,
)
    requires
        old(cache).wf(),
        new_address.wf(),
        contract_owner.wf(),
        !old(cache).state().contains_key(new_address@),
    ensures
        final(cache).wf(),
        final(cache).state() =~= old(cache).state().insert(
            new_address@,
            (AccountModel {
                address: new_address@,
                nonce: 0,
                egld_balance: 0,
                storage: Map::empty(),
                esdt: Map::empty(),
                username: Seq::empty(),
                contract_path: Some(contract_path@),
                contract_owner: Some(contract_owner@),
                developer_rewards: 0,
            }),
        ),
        final(cache).working@ =~= old(cache).working@.insert(
            new_address@,
            (AccountModel {
                address: new_address@,
                nonce: 0,
                egld_balance: 0,
                storage: Map::empty(),
                esdt: Map::empty(),
                username: Seq::empty(),
                contract_path: Some(contract_path@),
                contract_owner: Some(contract_owner@),
                developer_rewards: 0,
            }),
        ),
        final(cache).committed == old(cache).committed,
{
    let mut account = crate::account::AccountData::new(new_address.dup());
    account.contract_path = Some(contract_path);
    account.contract_owner = Some(contract_owner);
    cache.insert_account(account);
}

/// The model of the system transfer log: emitted by the zero address,
/// with the fixed endpoint name and topics [from, to, value-bytes].
pub open spec fn transfer_value_log_model(
    from: Seq<u8>,
    to: Seq<u8>,
    value_bytes: Seq<u8>,
) -> LogModel {
    LogModel {
        address: Seq::new(32, |i: int| 0u8),
        endpoint: msg::endpoint_transfer_value_only(),
        topics: seq![from, to, value_bytes],
        data: Seq::empty(),
    }
}

/// Build the system transfer log for one value transfer.
fn make_transfer_value_log(from: &VMAddress, to: &VMAddress, value: &BigUintValue) -> (r: TxLog)
    requires
        value.wf(),
    ensures
        r@ == transfer_value_log_model(from@, to@, value.bytes@),
{
    let mut topics: Vec<Vec<u8>> = Vec::new();
    topics.push(from.to_vec());
    topics.push(to.to_vec());
    topics.push(value.to_bytes_be());
    let r = TxLog {
        address: VMAddress::zero(),
        endpoint: msg::endpoint_transfer_value_only_vec(),
        topics,
        data: Vec::new(),
    };
    proof {
        assert(r@.topics =~= seq![from@, to@, value.bytes@]);
        assert(r@.address =~= Seq::new(32, |i: int| 0u8));
        assert(r@.data =~= Seq::<u8>::empty());
        assert(r@ == transfer_value_log_model(from@, to@, value.bytes@));
    }
    r
}

/// The secondary-token transfers of a call applied in order to the
/// account state, sender debited before recipient is credited; `None`
/// when some transfer in the sequence cannot be satisfied.
pub open spec fn apply_esdt_transfers(
    s: Map<Seq<u8>, AccountModel>,
    from: Seq<u8>,
    to: Seq<u8>,
    transfers: Seq<EsdtTransferModel>,
) -> Option<Map<Seq<u8>, AccountModel>>
    decreases transfers.len(),
{
    if transfers.len() == 0 {
        Some(s)
    } else {
        let t = transfers[0];
        let key = crate::account::esdt_key_seq(t.token_identifier, t.nonce);
        if crate::account::esdt_balance_of(s[from].esdt, key) < t.value {
            None
        } else {
            apply_esdt_transfers(
                crate::tx_cache::esdt_transfer_applied(s, from, to, key, t.value),
                from,
                to,
                transfers.drop_first(),
            )
        }
    }
}

/// Applying a longer prefix continues from the shorter prefix's state.
proof fn lemma_apply_esdt_step(
    s: Map<Seq<u8>, AccountModel>,
    from: Seq<u8>,
    to: Seq<u8>,
    transfers: Seq<EsdtTransferModel>,
    i: int,
)
    requires
        0 <= i < transfers.len(),
    ensures
        apply_esdt_transfers(s, from, to, transfers.take(i + 1)) == (match apply_esdt_transfers(
            s,
            from,
            to,
            transfers.take(i),
        ) {
            Some(m) => {
                let t = transfers[i];
                let key = crate::account::esdt_key_seq(t.token_identifier, t.nonce);
                if crate::account::esdt_balance_of(m[from].esdt, key) < t.value {
                    None
                } else {
                    Some(crate::tx_cache::esdt_transfer_applied(m, from, to, key, t.value))
                }
            },
            None => None,
        }),
    decreases i,
{
    let t0 = transfers[0];
    let key0 = crate::account::esdt_key_seq(t0.token_identifier, t0.nonce);
    if i == 0 {
        assert(transfers.take(0) =~= Seq::<EsdtTransferModel>::empty());
        assert(apply_esdt_transfers(s, from, to, transfers.take(0)) == Some(s));
        assert(transfers.take(1).len() == 1);
        assert(transfers.take(1)[0] == t0);
        if crate::account::esdt_balance_of(s[from].esdt, key0) < t0.value {
            assert(apply_esdt_transfers(s, from, to, transfers.take(1)) is None);
        } else {
            let s1 = crate::tx_cache::esdt_transfer_applied(s, from, to, key0, t0.value);
            assert(transfers.take(1).drop_first() =~= Seq::<EsdtTransferModel>::empty());
            assert(apply_esdt_transfers(s, from, to, transfers.take(1)) == apply_esdt_transfers(
                s1,
                from,
                to,
                transfers.take(1).drop_first(),
            ));
            assert(apply_esdt_transfers(s1, from, to, Seq::<EsdtTransferModel>::empty()) == Some(
                s1,
            ));
        }
    } else {
        assert(transfers.take(i + 1).len() == i + 1);
        assert(transfers.take(i).len() == i);
        assert(transfers.take(i + 1)[0] == t0);
        assert(transfers.take(i)[0] == t0);
        if crate::account::esdt_balance_of(s[from].esdt, key0) < t0.value {
            assert(apply_esdt_transfers(s, from, to, transfers.take(i + 1)) is None);
            assert(apply_esdt_transfers(s, from, to, transfers.take(i)) is None);
        } else {
            let s1 = crate::tx_cache::esdt_transfer_applied(s, from, to, key0, t0.value);
            lemma_apply_esdt_step(s1, from, to, transfers.drop_first(), i - 1);
            assert(transfers.take(i + 1).drop_first() =~= transfers.drop_first().take(i));
            assert(transfers.take(i).drop_first() =~= transfers.drop_first().take(i - 1));
            assert(transfers.drop_first()[i - 1] == transfers[i]);
            assert(apply_esdt_transfers(s, from, to, transfers.take(i + 1)) == apply_esdt_transfers(
                s1,
                from,
                to,
                transfers.drop_first().take(i),
            ));
            assert(apply_esdt_transfers(s, from, to, transfers.take(i)) == apply_esdt_transfers(
                s1,
                from,
                to,
                transfers.drop_first().take(i - 1),
            ));
        }
    }
}

/// Is the call a dispatch (contract target, named endpoint) rather than a
/// plain value transfer?
pub open spec fn is_dispatch_call(input: crate::tx_input::InputModel) -> bool {
    is_sc_address(input.to) && input.func_name.len() > 0
}

/// Is the system transfer log synthesized for this call? Only when the
/// sender is itself a contract and the value is non-zero.
pub open spec fn adds_transfer_log(input: crate::tx_input::InputModel) -> bool {
    is_sc_address(input.from) && input.egld_value > 0
}

/// One general transaction, end to end: move the native-coin value, apply
/// each secondary-token transfer in order, then either stop (plain value
/// transfer) or dispatch to the recipient contract's endpoint; finally
/// extract the delta from the cache.
///
/// Any transfer that cannot be satisfied aborts the whole transaction:
/// the panic-derived result is returned with an empty delta and no
/// partial effects. On success, when the sender is a contract and the
/// value non-zero, the system transfer log stands before whatever the
/// call logged.
pub fn default_execution<C: ContractCode>(
    code: &C,
    panic_message_flag: bool,
    tx_input: TxInput,
    tx_cache: TxCache,
) -> (r: (TxResult, BlockchainUpdate))
    requires
        tx_input.wf(),
        tx_cache.wf(),
        tx_cache.state().contains_key(tx_input.from@),
        tx_cache.state().contains_key(tx_input.to@),
        is_dispatch_call(tx_input@) ==> tx_cache.state()[tx_input.to@].contract_path is Some,
    ensures
        ({
            let s0 = tx_cache.state();
            let f = tx_input@.from;
            let t = tx_input@.to;
            let v = tx_input@.egld_value;
            let after_egld = crate::tx_cache::transfer_applied(s0, f, t, v);
            let tv_log = transfer_value_log_model(f, t, tx_input.egld_value.bytes@);
            &&& (s0[f].egld_balance < v ==> r.0@ == panic_result_model(
                STATUS_VM_ERROR,
                msg::msg_insufficient_funds(),
            ) && r.1.accounts@ =~= Map::<Seq<u8>, AccountModel>::empty())
            &&& (s0[f].egld_balance >= v && apply_esdt_transfers(
                after_egld,
                f,
                t,
                tx_input@.esdt_values,
            ) is None ==> r.0@ == panic_result_model(STATUS_VM_ERROR, msg::msg_insufficient_funds())
                && r.1.accounts@ =~= Map::<Seq<u8>, AccountModel>::empty())
            &&& (s0[f].egld_balance >= v ==> (apply_esdt_transfers(
                after_egld,
                f,
                t,
                tx_input@.esdt_values,
            ) matches Some(s2) ==> {
                &&& (!is_dispatch_call(tx_input@) ==> r.0@ == (if adds_transfer_log(tx_input@) {
                    (ResultModel {
                        status: 0,
                        message: Seq::empty(),
                        values: Seq::empty(),
                        logs: seq![tv_log],
                    })
                } else {
                    empty_result_model()
                }) && (forall|k: Seq<u8>|
                    r.1.accounts@.contains_key(k) ==> s2.contains_key(k) && r.1.accounts@[k]
                        == s2[k]) && r.1.accounts@.dom() =~= tx_cache.working@.dom().insert(
                    f,
                ).insert(t))
                &&& r.1.accounts@.contains_key(f) && r.1.accounts@.contains_key(t)
                &&& (!is_dispatch_call(tx_input@) ==> r.1.accounts@[f] == s2[f]
                    && r.1.accounts@[t] == s2[t])
                &&& (adds_transfer_log(tx_input@) ==> r.0@.logs.len() >= 1 && r.0@.logs[0]
                    == tv_log)
            }))
            &&& r.1.wf()
        }),
{
    let mut cache = tx_cache;
    let from = tx_input.from.dup();
    let to = tx_input.to.dup();
    let value = tx_input.egld_value.dup();
    let transfer_result = cache.transfer_egld_balance(&from, &to, &value);
    match transfer_result {
        Err(p) => {
            return (TxResult::from_panic_obj(&p), BlockchainUpdate::empty());
        },
        Ok(_) => {},
    }
    let ghost s1 = cache.state();
    let add_transfer_log = from.is_smart_contract_address() && !value.is_zero();
    let transfer_value_log = if add_transfer_log {
        Some(make_transfer_value_log(&from, &to, &value))
    } else {
        None
    };
    let n = tx_input.esdt_values.len();
    let mut i: usize = 0;
    proof {
        assert(tx_input@.esdt_values.take(0) =~= Seq::<EsdtTransferModel>::empty());
    }
    while i < n
        invariant
            n == tx_input@.esdt_values.len(),
            i <= n,
            tx_input.wf(),
            from@ == tx_input@.from,
            to@ == tx_input@.to,
            cache.wf(),
            cache.state().contains_key(tx_input.from@),
            cache.state().contains_key(tx_input.to@),
            apply_esdt_transfers(s1, tx_input@.from, tx_input@.to, tx_input@.esdt_values.take(
                i as int,
            )) matches Some(m) && m == cache.state(),
            cache.state()[tx_input.to@].contract_path == tx_cache.state()[
                tx_input.to@
            ].contract_path,
            s1 == crate::tx_cache::transfer_applied(
                tx_cache.state(),
                tx_input@.from,
                tx_input@.to,
                tx_input@.egld_value,
            ),
            cache.working@.dom() =~= tx_cache.working@.dom().insert(tx_input@.from).insert(
                tx_input@.to,
            ),
            tx_cache.state().contains_key(tx_input.from@),
            tx_cache.state().contains_key(tx_input.to@),
            tx_cache.state()[tx_input@.from].egld_balance >= tx_input@.egld_value,
            is_dispatch_call(tx_input@) ==> tx_cache.state()[tx_input.to@].contract_path is Some,
        decreases n - i,
    {
        let t = &tx_input.esdt_values[i];
        let ghost pre_state = cache.state();
        let tr = cache.transfer_esdt_balance(&from, &to, &t.token_identifier, t.nonce, &t.value);
        proof {
            lemma_apply_esdt_step(s1, tx_input@.from, tx_input@.to, tx_input@.esdt_values, i as int);
        }
        match tr {
            Err(p) => {
                proof {
                    let transfers = tx_input@.esdt_values;
                    let tm = transfers[i as int];
                    let key = crate::account::esdt_key_seq(tm.token_identifier, tm.nonce);
                    assert(tm == tx_input.esdt_values@[i as int]@);
                    assert(crate::account::esdt_balance_of(pre_state[tx_input@.from].esdt, key)
                        < tm.value);
                    assert(apply_esdt_transfers(s1, tx_input@.from, tx_input@.to, transfers.take(
                        i + 1,
                    )) is None);
                    lemma_apply_esdt_fail(s1, tx_input@.from, tx_input@.to, transfers, i + 1);
                    assert(apply_esdt_transfers(s1, tx_input@.from, tx_input@.to, transfers)
                        is None);
                    assert(s1 == crate::tx_cache::transfer_applied(
                        tx_cache.state(),
                        tx_input@.from,
                        tx_input@.to,
                        tx_input@.egld_value,
                    ));
                }
                return (TxResult::from_panic_obj(&p), BlockchainUpdate::empty());
            },
            Ok(_) => {
                proof {
                    let key = crate::account::esdt_key_seq(
                        tx_input@.esdt_values[i as int].token_identifier,
                        tx_input@.esdt_values[i as int].nonce,
                    );
                    assert(cache.state() =~= crate::tx_cache::esdt_transfer_applied(
                        pre_state,
                        tx_input@.from,
                        tx_input@.to,
                        key,
                        tx_input@.esdt_values[i as int].value,
                    ));
                }
            },
        }
        i = i + 1;
    }
    proof {
        assert(tx_input@.esdt_values.take(n as int) =~= tx_input@.esdt_values);
    }
    let ghost s2 = cache.state();
    let mut tx_result: TxResult;
    if !to.is_smart_contract_address() || tx_input.func_name.len() == 0 {
        tx_result = TxResult::empty();
    } else {
        let mut stack = TxContextStack::new();
        tx_result = execute_tx_context(code, panic_message_flag, tx_input, &mut stack, &mut cache);
    }
    match transfer_value_log {
        Some(log) => {
            tx_result.prepend_log(log);
            proof {
                assert(tx_result@.logs[0] == transfer_value_log_model(
                    tx_input@.from,
                    tx_input@.to,
                    tx_input.egld_value.bytes@,
                ));
            }
        },
        None => {},
    }
    let updates = cache.into_blockchain_updates();
    proof {
        if !is_dispatch_call(tx_input@) {
            if adds_transfer_log(tx_input@) {
                assert(tx_result@.logs =~= seq![
                    transfer_value_log_model(tx_input@.from, tx_input@.to, tx_input.egld_value.bytes@),
                ]);
            }
            assert forall|k: Seq<u8>| updates.accounts@.contains_key(k) implies s2.contains_key(k)
                && updates.accounts@[k] == s2[k] by {}
        }
        assert(updates.accounts@.contains_key(tx_input@.from));
        assert(updates.accounts@.contains_key(tx_input@.to));
    }
    (tx_result, updates)
}

/// On a plain value transfer the delta is fully determined by the inputs:
/// any two updates whose entries agree with the post-transfer state and
/// which carry exactly the touched accounts are equal — so repeated
/// execution of identical inputs yields identical deltas.
pub proof fn lemma_plain_transfer_update_determined(
    u1: Map<Seq<u8>, AccountModel>,
    u2: Map<Seq<u8>, AccountModel>,
    s2: Map<Seq<u8>, AccountModel>,
    keys: Set<Seq<u8>>,
)
    requires
        u1.dom() =~= keys,
        u2.dom() =~= keys,
        forall|k: Seq<u8>| u1.contains_key(k) ==> u1[k] == s2[k],
        forall|k: Seq<u8>| u2.contains_key(k) ==> u2[k] == s2[k],
    ensures
        u1 =~= u2,
{
}

/// One deploy, end to end: derive the fresh address from the creator and
/// its nonce, debit the deploying account up front, register the new
/// contract account, credit the transferred value onto it, and dispatch
/// the canonical initializer. Deploy and initialization are one atomic
/// unit; a failed initializer reports its failure in the result while the
/// committing caller decides the fate of the whole delta.
pub fn deploy_contract<C: ContractCode>(
    code: &C,
    panic_message_flag: bool,
    tx_input: TxInput,
    contract_path: Vec<u8>,
    tx_cache: TxCache,
) -> (r: (TxResult, VMAddress, BlockchainUpdate))
    requires
        tx_input.wf(),
        tx_cache.wf(),
        tx_cache.state().contains_key(tx_input.from@),
        !tx_cache.state().contains_key(
            new_address_seq(tx_input.from@, tx_cache.state()[tx_input.from@].nonce),
        ),
    ensures
        ({
            let s0 = tx_cache.state();
            let f = tx_input@.from;
            let v = tx_input@.egld_value;
            let new_addr = new_address_seq(f, s0[f].nonce);
            &&& (s0[f].egld_balance < v ==> r.0@ == panic_result_model(
                STATUS_VM_ERROR,
                msg::msg_insufficient_funds(),
            ) && r.1@ =~= Seq::new(32, |i: int| 0u8) && r.2.accounts@ =~= Map::<
                Seq<u8>,
                AccountModel,
            >::empty())
            &&& (s0[f].egld_balance >= v ==> r.1@ =~= new_addr && is_sc_address(r.1@)
                && r.2.accounts@.contains_key(new_addr) && r.2.accounts@.contains_key(f))
            &&& r.2.wf()
        }),
{
    let mut cache = tx_cache;
    let from = tx_input.from.dup();
    let value = tx_input.egld_value.dup();
    let new_address = cache.get_new_address(&from);
    let sub = cache.subtract_egld_balance(&from, &value);
    match sub {
        Err(p) => {
            return (TxResult::from_panic_obj(&p), VMAddress::zero(), BlockchainUpdate::empty());
        },
        Ok(_) => {},
    }
    create_new_contract(&mut cache, &new_address, contract_path, from.dup());
    cache.increase_egld_balance(&new_address, &value);
    let mut tx_input = tx_input;
    tx_input.to = new_address.dup();
    tx_input.func_name = msg::endpoint_init_vec();
    let mut stack = TxContextStack::new();
    let tx_result = execute_tx_context(code, panic_message_flag, tx_input, &mut stack, &mut cache);
    let updates = cache.into_blockchain_updates();
    proof {
        assert(updates.accounts@.contains_key(new_address@));
        assert(updates.accounts@.contains_key(from@));
    }
    (tx_result, new_address, updates)
}

/// A failing step leaves the whole sequence unsatisfiable.
proof fn lemma_apply_esdt_fail(
    s: Map<Seq<u8>, AccountModel>,
    from: Seq<u8>,
    to: Seq<u8>,
    transfers: Seq<EsdtTransferModel>,
    i: int,
)
    requires
        0 <= i <= transfers.len(),
        apply_esdt_transfers(s, from, to, transfers.take(i)) is None,
    ensures
        apply_esdt_transfers(s, from, to, transfers) is None,
    decreases transfers.len() - i,
{
    if i == transfers.len() {
        assert(transfers.take(i) =~= transfers);
    } else {
        lemma_apply_esdt_step(s, from, to, transfers, i);
        lemma_apply_esdt_fail(s, from, to, transfers, i + 1);
    }
}

} // verus!
