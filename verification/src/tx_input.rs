//! The immutable per-call input record.

use vstd::prelude::*;

use crate::address::VMAddress;
use crate::bigint::BigUintValue;
use crate::bytes::list_view;

verus! {

/// One secondary-token transfer carried by a call.
pub struct TxEsdtTransfer {
    pub token_identifier: Vec<u8>,
    pub nonce: u64,
    pub value: BigUintValue,
}

/// The spec-level shape of one secondary-token transfer.
pub struct EsdtTransferModel {
    pub token_identifier: Seq<u8>,
    pub nonce: u64,
    pub value: nat,
}

impl View for TxEsdtTransfer {
    type V = EsdtTransferModel;

    open spec fn view(&self) -> EsdtTransferModel {
        EsdtTransferModel {
            token_identifier: self.token_identifier@,
            nonce: self.nonce,
            value: self.value@,
        }
    }
}

/// The spec-level shape of a call input.
pub struct InputModel {
    pub from: Seq<u8>,
    pub to: Seq<u8>,
    pub egld_value: nat,
    pub esdt_values: Seq<EsdtTransferModel>,
    pub func_name: Seq<u8>,
    pub args: Seq<Seq<u8>>,
    pub gas_limit: u64,
    pub gas_price: u64,
    pub tx_hash: Seq<u8>,
}

/// One call's input: sender, recipient, native-coin value, secondary-token
/// transfers, endpoint name, ordered argument byte-strings, gas and hash.
/// Constructed once by the caller; the engine only ever rewrites the
/// recipient and endpoint on deploy.
pub struct TxInput {
    pub from: VMAddress,
    pub to: VMAddress,
    pub egld_value: BigUintValue,
    pub esdt_values: Vec<TxEsdtTransfer>,
    pub func_name: Vec<u8>,
    pub args: Vec<Vec<u8>>,
    pub gas_limit: u64,
    pub gas_price: u64,
    pub tx_hash: Vec<u8>,
}

impl View for TxInput {
    type V = InputModel;

    open spec fn view(&self) -> InputModel {
        InputModel {
            from: self.from@,
            to: self.to@,
            egld_value: self.egld_value@,
            esdt_values: Seq::new(self.esdt_values@.len(), |i: int| self.esdt_values@[i]@),
            func_name: self.func_name@,
            args: list_view(self.args@),
            gas_limit: self.gas_limit,
            gas_price: self.gas_price,
            tx_hash: self.tx_hash@,
        }
    }
}

impl TxInput {
    pub open spec fn wf(&self) -> bool {
        &&& self.from.wf()
        &&& self.to.wf()
        &&& self.egld_value.wf()
        &&& forall|i: int|
            0 <= i < self.esdt_values@.len() ==> (#[trigger] self.esdt_values@[i]).value.wf()
        &&& self.tx_hash@.len() == 32
    }

    /// Append an argument.
    pub fn add_arg(&mut self, arg: Vec<u8>)
        ensures
            final(self)@ == (InputModel { args: old(self)@.args.push(arg@), ..old(self)@ }),
            old(self).wf() ==> final(self).wf(),
    {
        self.args.push(arg);
        proof {
            assert(final(self)@.args =~= old(self)@.args.push(arg@));
            assert(final(self)@.esdt_values =~= old(self)@.esdt_values);
        }
    }
}

} // verus!
