//! Transaction outcomes.
//!
//! A `TxPanic` is the structured carrier of an execution-level failure: a
//! status code from the closed taxonomy and a message. A `TxResult` is the
//! outcome of one call: status, message, returned byte-values and emitted
//! logs. `TxOutput` is the per-call buffered output container, with the
//! per-call storage overlay and scheduled balance sends.

use vstd::prelude::*;

use crate::address::VMAddress;
use crate::bigint::BigUintValue;
use crate::bytes::{copy_bytes, copy_bytes_list, list_view};
use crate::kv::KvMap;
use crate::msg;

verus! {

/// Success.
pub const STATUS_OK: u64 = 0;

/// The requested endpoint does not exist.
pub const STATUS_FUNCTION_NOT_FOUND: u64 = 1;

/// A user/contract error; every translated panic lands here.
pub const STATUS_USER_ERROR: u64 = 4;

/// An engine/argument violation: reserved-key write, out-of-range argument.
pub const STATUS_VM_ERROR: u64 = 10;

/// The structured carrier of an abnormal execution termination.
#[derive(Debug)]
pub struct TxPanic {
    pub status: u64,
    pub message: Vec<u8>,
}

impl TxPanic {
    pub fn new(status: u64, message: Vec<u8>) -> (r: TxPanic)
        ensures
            r.status == status,
            r.message@ =~= message@,
    {
        TxPanic { status, message }
    }

    /// A contract-authored failure: status 4.
    pub fn user_error(message: Vec<u8>) -> (r: TxPanic)
        ensures
            r.status == STATUS_USER_ERROR,
            r.message@ =~= message@,
    {
        TxPanic { status: STATUS_USER_ERROR, message }
    }

    /// An engine/argument violation: status 10.
    pub fn vm_error(message: Vec<u8>) -> (r: TxPanic)
        ensures
            r.status == STATUS_VM_ERROR,
            r.message@ =~= message@,
    {
        TxPanic { status: STATUS_VM_ERROR, message }
    }

    pub fn dup(&self) -> (r: TxPanic)
        ensures
            r.status == self.status,
            r.message@ =~= self.message@,
    {
        TxPanic { status: self.status, message: copy_bytes(&self.message) }
    }
}

/// One emitted log entry: emitting address, endpoint name, topic byte
/// strings, payload bytes.
pub struct TxLog {
    pub address: VMAddress,
    pub endpoint: Vec<u8>,
    pub topics: Vec<Vec<u8>>,
    pub data: Vec<u8>,
}

/// The spec-level shape of a log entry.
pub struct LogModel {
    pub address: Seq<u8>,
    pub endpoint: Seq<u8>,
    pub topics: Seq<Seq<u8>>,
    pub data: Seq<u8>,
}

impl View for TxLog {
    type V = LogModel;

    open spec fn view(&self) -> LogModel {
        LogModel {
            address: self.address@,
            endpoint: self.endpoint@,
            topics: list_view(self.topics@),
            data: self.data@,
        }
    }
}

/// The spec-level logs of a result.
pub open spec fn logs_view(s: Seq<TxLog>) -> Seq<LogModel> {
    Seq::new(s.len(), |i: int| s[i]@)
}

/// The outcome of one call.
pub struct TxResult {
    pub result_status: u64,
    pub result_message: Vec<u8>,
    pub result_values: Vec<Vec<u8>>,
    pub result_logs: Vec<TxLog>,
}

/// The spec-level shape of a call outcome.
pub struct ResultModel {
    pub status: u64,
    pub message: Seq<u8>,
    pub values: Seq<Seq<u8>>,
    pub logs: Seq<LogModel>,
}

impl View for TxResult {
    type V = ResultModel;

    open spec fn view(&self) -> ResultModel {
        ResultModel {
            status: self.result_status,
            message: self.result_message@,
            values: list_view(self.result_values@),
            logs: logs_view(self.result_logs@),
        }
    }
}

/// The model of a fresh, successful, empty result.
pub open spec fn empty_result_model() -> ResultModel {
    ResultModel {
        status: STATUS_OK,
        message: Seq::empty(),
        values: Seq::empty(),
        logs: Seq::empty(),
    }
}

/// The model of a result derived from a panic carrier: its status and
/// message, with no values and no logs.
pub open spec fn panic_result_model(status: u64, message: Seq<u8>) -> ResultModel {
    ResultModel { status, message, values: Seq::empty(), logs: Seq::empty() }
}

impl TxResult {
    /// A fresh, successful, empty result.
    pub fn empty() -> (r: TxResult)
        ensures
            r@ == empty_result_model(),
    {
        let r = TxResult {
            result_status: STATUS_OK,
            result_message: Vec::new(),
            result_values: Vec::new(),
            result_logs: Vec::new(),
        };
        proof {
            assert(r@.values =~= Seq::<Seq<u8>>::empty());
            assert(r@.logs =~= Seq::<LogModel>::empty());
            assert(r@ == empty_result_model());
        }
        r
    }

    /// The result a structured panic carrier translates to: the carrier is
    /// used as it stands.
    pub fn from_panic_obj(panic_obj: &TxPanic) -> (r: TxResult)
        ensures
            r@ == panic_result_model(panic_obj.status, panic_obj.message@),
    {
        let r = TxResult {
            result_status: panic_obj.status,
            result_message: copy_bytes(&panic_obj.message),
            result_values: Vec::new(),
            result_logs: Vec::new(),
        };
        proof {
            assert(r@.values =~= Seq::<Seq<u8>>::empty());
            assert(r@.logs =~= Seq::<LogModel>::empty());
            assert(r@ == panic_result_model(panic_obj.status, panic_obj.message@));
        }
        r
    }

    /// Append a returned byte-value.
    pub fn push_result_value(&mut self, v: Vec<u8>)
        ensures
            final(self)@ == (ResultModel { values: old(self)@.values.push(v@), ..old(self)@ }),
    {
        self.result_values.push(v);
        proof {
            assert(final(self)@.values =~= old(self)@.values.push(v@));
            assert(final(self)@.logs =~= old(self)@.logs);
        }
    }

    /// Append an emitted log.
    pub fn push_log(&mut self, log: TxLog)
        ensures
            final(self)@ == (ResultModel { logs: old(self)@.logs.push(log@), ..old(self)@ }),
    {
        self.result_logs.push(log);
        proof {
            assert(final(self)@.logs =~= old(self)@.logs.push(log@));
            assert(final(self)@.values =~= old(self)@.values);
        }
    }

    /// Prepend a log (the system transfer log goes before whatever the
    /// contract logged).
    pub fn prepend_log(&mut self, log: TxLog)
        ensures
            final(self)@ == (ResultModel {
                logs: seq![log@] + old(self)@.logs,
                ..old(self)@
            }),
    {
        self.result_logs.insert(0, log);
        proof {
            assert(final(self)@.logs =~= seq![log@] + old(self)@.logs);
            assert(final(self)@.values =~= old(self)@.values);
        }
    }
}

/// A balance send a contract scheduled during its run.
pub struct SendBalance {
    pub recipient: VMAddress,
    pub amount: BigUintValue,
}

/// An asynchronous call a contract scheduled during its run.
pub struct AsyncCallTxData {
    pub to: VMAddress,
    pub call_value: BigUintValue,
    pub call_data: Vec<u8>,
    pub tx_hash: Vec<u8>,
}

/// The buffered per-call output: the call's storage overlay, its result,
/// the balance sends and the scheduled async call.
pub struct TxOutput {
    pub contract_storage: KvMap<Vec<u8>>,
    pub result: TxResult,
    pub send_balance_list: Vec<SendBalance>,
    pub async_call: Option<AsyncCallTxData>,
}

impl Default for TxOutput {
    /// The empty output with a successful result.
    fn default() -> (r: TxOutput)
        ensures
            r.result@ == empty_result_model(),
            r.contract_storage@ =~= Map::<Seq<u8>, Seq<u8>>::empty(),
            r.contract_storage.wf(),
            r.send_balance_list@.len() == 0,
            r.async_call is None,
    {
        TxOutput::empty()
    }
}

impl TxOutput {
    /// An empty output with a successful result.
    pub fn empty() -> (r: TxOutput)
        ensures
            r.result@ == empty_result_model(),
            r.contract_storage@ =~= Map::<Seq<u8>, Seq<u8>>::empty(),
            r.contract_storage.wf(),
            r.send_balance_list@.len() == 0,
            r.async_call is None,
    {
        TxOutput {
            contract_storage: KvMap::new(),
            result: TxResult::empty(),
            send_balance_list: Vec::new(),
            async_call: None,
        }
    }

    /// The output a structured panic carrier translates to.
    pub fn from_panic_obj(panic_obj: &TxPanic) -> (r: TxOutput)
        ensures
            r.result@ == panic_result_model(panic_obj.status, panic_obj.message@),
            r.contract_storage@ =~= Map::<Seq<u8>, Seq<u8>>::empty(),
            r.contract_storage.wf(),
            r.send_balance_list@.len() == 0,
            r.async_call is None,
    {
        TxOutput {
            contract_storage: KvMap::new(),
            result: TxResult::from_panic_obj(panic_obj),
            send_balance_list: Vec::new(),
            async_call: None,
        }
    }

    /// Buffer one balance send scheduled by the running call.
    pub fn record_send_balance(&mut self, recipient: VMAddress, amount: BigUintValue)
        ensures
            final(self).send_balance_list@.len() == old(self).send_balance_list@.len() + 1,
            final(self).send_balance_list@.last().recipient@ == recipient@,
            final(self).send_balance_list@.last().amount@ == amount@,
            final(self).send_balance_list@.drop_last() == old(self).send_balance_list@,
            final(self).result == old(self).result,
            final(self).contract_storage == old(self).contract_storage,
            final(self).async_call == old(self).async_call,
    {
        self.send_balance_list.push(SendBalance { recipient, amount });
    }

    /// Buffer the asynchronous call scheduled by the running call; at most
    /// one is carried, the last one scheduled wins.
    pub fn schedule_async_call(&mut self, call: AsyncCallTxData)
        ensures
            final(self).async_call == Some(call),
            final(self).result == old(self).result,
            final(self).contract_storage == old(self).contract_storage,
            final(self).send_balance_list == old(self).send_balance_list,
    {
        self.async_call = Some(call);
    }

    /// The output a plain textual panic translates to: a user error whose
    /// message is the fixed prefix followed by the text.
    pub fn from_panic_string(panic_string: &Vec<u8>) -> (r: TxOutput)
        ensures
            r.result@ == panic_result_model(
                STATUS_USER_ERROR,
                msg::msg_panic_prefix() + panic_string@,
            ),
            r.contract_storage@ =~= Map::<Seq<u8>, Seq<u8>>::empty(),
            r.contract_storage.wf(),
            r.send_balance_list@.len() == 0,
            r.async_call is None,
    {
        let mut message = msg::msg_panic_prefix_vec();
        let mut i: usize = 0;
        let ghost prefix = message@;
        while i < panic_string.len()
            invariant
                i <= panic_string@.len(),
                message@ =~= prefix + panic_string@.subrange(0, i as int),
            decreases panic_string.len() - i,
        {
            message.push(panic_string[i]);
            i = i + 1;
        }
        proof {
            assert(message@ =~= msg::msg_panic_prefix() + panic_string@);
        }
        let panic = TxPanic { status: STATUS_USER_ERROR, message };
        TxOutput {
            contract_storage: KvMap::new(),
            result: TxResult::from_panic_obj(&panic),
            send_balance_list: Vec::new(),
            async_call: None,
        }
    }
}

} // verus!
