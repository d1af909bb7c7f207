//! The execution-time handle bound to one call, and the call-depth stack
//! of such handles.
//!
//! A context owns the call's input, a fresh scratch space for managed
//! values, the in-progress result, and a deterministic pseudo-random
//! source seeded from the transaction hash and cache state — so repeated
//! execution of identical inputs is reproducible. Contexts of nested calls stack up;
//! only the top frame is addressable as the current transaction, and a pop
//! restores the previous frame exactly as it was.

use vstd::prelude::*;

use crate::account::{is_reserved_key, stored_value, zero_pad_32, AccountModel};
use crate::address::VMAddress;
use crate::bigint::{BigIntValue, BigUintValue};
use crate::bytes::{append_bytes, be_val, copy_bytes, nat_be, signed_be_val, u64_to_be_bytes};
use crate::crypto::{keccak256_of, sha3_256_of};
use crate::managed_types::TxManagedTypes;
use crate::msg;
use crate::tx_cache::TxCache;
use crate::tx_input::TxInput;
use crate::tx_result::{
    empty_result_model, ResultModel, TxPanic, TxResult, STATUS_USER_ERROR, STATUS_VM_ERROR,
};

verus! {

/// The deterministic pseudo-random source of one call: a hash chain over
/// a seed and a counter. The seed is composed of the transaction hash and
/// the cache's overlay size — both functions of the call's input and
/// cache-visible state, so repeated execution of identical inputs over
/// equal caches replays the exact same byte stream.
pub struct BlockchainRng {
    pub seed: Vec<u8>,
    pub counter: u64,
}

impl BlockchainRng {
    /// Seed from the call's transaction hash and the cache state.
    pub fn new(tx_input: &TxInput, cache: &TxCache) -> (r: BlockchainRng)
        ensures
            r.seed@ =~= tx_input.tx_hash@ + nat_be(cache.working.entries@.len() as nat, 8),
            r.counter == 0,
    {
        let mut seed = copy_bytes(&tx_input.tx_hash);
        let overlay_size: u64 = cache.working.entries.len() as u64;
        let size_bytes = u64_to_be_bytes(overlay_size);
        append_bytes(&mut seed, &size_bytes);
        BlockchainRng { seed, counter: 0 }
    }

    /// The next 32 deterministic bytes.
    pub fn next_bytes(&mut self) -> (r: Vec<u8>)
        requires
            old(self).counter < u64::MAX,
        ensures
            r@ == sha3_256_of(old(self).seed@ + nat_be(old(self).counter as nat, 8)),
            r@.len() == 32,
            final(self).seed@ == old(self).seed@,
            final(self).counter == old(self).counter + 1,
    {
        let mut data = copy_bytes(&self.seed);
        let counter_bytes = u64_to_be_bytes(self.counter);
        let ghost pre = data@;
        let mut i: usize = 0;
        while i < counter_bytes.len()
            invariant
                i <= counter_bytes@.len(),
                data@ =~= pre + counter_bytes@.subrange(0, i as int),
            decreases counter_bytes.len() - i,
        {
            data.push(counter_bytes[i]);
            i = i + 1;
        }
        proof {
            assert(data@ =~= old(self).seed@ + nat_be(old(self).counter as nat, 8));
        }
        self.counter = self.counter + 1;
        crate::crypto::sha3_256(&data)
    }
}

/// The fixture address `TxContext::dummy` uses: 32 bytes of `'c'`.
pub open spec fn dummy_address_seq() -> Seq<u8> {
    Seq::new(32, |i: int| 99u8)
}

/// The fixture transaction hash: `"dummy"` followed by 27 `'.'` bytes.
pub open spec fn dummy_tx_hash_seq() -> Seq<u8> {
    seq![100u8, 117, 109, 109, 121] + Seq::new(27, |i: int| 46u8)
}

/// The execution-time handle of one call.
pub struct TxContext {
    pub tx_input: TxInput,
    pub managed_types: TxManagedTypes,
    pub tx_result: TxResult,
    pub b_rng: BlockchainRng,
}

impl TxContext {
    pub open spec fn wf(&self) -> bool {
        self.tx_input.wf()
    }

    /// A fresh context for one call: empty scratch space, empty result,
    /// random source seeded from the input and the cache.
    pub fn new(tx_input: TxInput, cache: &TxCache) -> (r: TxContext)
        ensures
            r.tx_input == tx_input,
            r.managed_types.buffers@.len() == 0,
            r.managed_types.big_ints@.len() == 0,
            r.tx_result@ == empty_result_model(),
            r.b_rng.seed@ =~= tx_input.tx_hash@ + nat_be(
                cache.working.entries@.len() as nat,
                8,
            ),
            r.b_rng.counter == 0,
            tx_input.wf() ==> r.wf(),
    {
        let b_rng = BlockchainRng::new(&tx_input, cache);
        TxContext {
            tx_input,
            managed_types: TxManagedTypes::new(),
            tx_result: TxResult::empty(),
            b_rng,
        }
    }

    /// A self-contained context over a one-account ledger, for exercising
    /// the hook primitives without setting up a world: the account, the
    /// sender and the recipient are all the same fixed address, and the
    /// account starts fresh (zero nonce and balances, empty storage, no
    /// contract reference).
    pub fn dummy() -> (r: (TxContext, TxCache))
        ensures
            r.0.wf(),
            r.1.wf(),
            r.0.tx_input@.from =~= dummy_address_seq(),
            r.0.tx_input@.to =~= dummy_address_seq(),
            r.0.tx_input@.egld_value == 0,
            r.0.tx_input@.esdt_values.len() == 0,
            r.0.tx_input@.args.len() == 0,
            r.0.tx_input@.func_name.len() == 0,
            r.0.tx_input@.gas_limit == 0,
            r.0.tx_input@.gas_price == 0,
            r.0.tx_input@.tx_hash =~= dummy_tx_hash_seq(),
            r.0.managed_types.buffers@.len() == 0,
            r.0.managed_types.big_ints@.len() == 0,
            r.0.tx_result@ == empty_result_model(),
            r.1.state().contains_key(r.0.tx_input.to@),
            r.1.state()[r.0.tx_input.to@] == (AccountModel {
                address: dummy_address_seq(),
                nonce: 0,
                egld_balance: 0,
                storage: Map::empty(),
                esdt: Map::empty(),
                username: Seq::empty(),
                contract_path: None,
                contract_owner: None,
                developer_rewards: 0,
            }),
            r.1.working@ =~= Map::<Seq<u8>, AccountModel>::empty(),
    {
        let mut address_bytes: Vec<u8> = Vec::new();
        let mut i: usize = 0;
        while i < 32
            invariant
                i <= 32,
                address_bytes@ =~= Seq::new(i as nat, |j: int| 99u8),
            decreases 32 - i,
        {
            address_bytes.push(99);
            i = i + 1;
        }
        let contract_address = VMAddress::from_bytes(&address_bytes);
        let account = crate::account::AccountData::new(contract_address.dup());
        let mut committed = crate::tx_cache::BlockchainState::new();
        committed.put_account(account);
        let cache = TxCache::new(committed);
        let mut tx_hash: Vec<u8> = Vec::new();
        tx_hash.push(100);
        tx_hash.push(117);
        tx_hash.push(109);
        tx_hash.push(109);
        tx_hash.push(121);
        let mut j: usize = 0;
        while j < 27
            invariant
                j <= 27,
                tx_hash@.len() == 5 + j,
                tx_hash@.subrange(0, 5) =~= seq![100u8, 117, 109, 109, 121],
                forall|k: int| 5 <= k < 5 + j ==> tx_hash@[k] == 46,
            decreases 27 - j,
        {
            tx_hash.push(46);
            j = j + 1;
        }
        proof {
            assert(tx_hash@ =~= dummy_tx_hash_seq());
        }
        let tx_input = TxInput {
            from: contract_address.dup(),
            to: contract_address,
            egld_value: BigUintValue::zero(),
            esdt_values: Vec::new(),
            func_name: Vec::new(),
            args: Vec::new(),
            gas_limit: 0,
            gas_price: 0,
            tx_hash,
        };
        let ctx = TxContext::new(tx_input, &cache);
        proof {
            assert(ctx.tx_input@.args =~= Seq::<Seq<u8>>::empty());
            assert(ctx.tx_input@.esdt_values =~= Seq::<
                crate::tx_input::EsdtTransferModel,
            >::empty());
            assert(cache.state()[ctx.tx_input.to@] == (AccountModel {
                address: dummy_address_seq(),
                nonce: 0,
                egld_balance: 0,
                storage: Map::empty(),
                esdt: Map::empty(),
                username: Seq::empty(),
                contract_path: None,
                contract_owner: None,
                developer_rewards: 0,
            }));
        }
        (ctx, cache)
    }

    /// Reclaim the context and the cache into the final result and the
    /// transaction's state delta. Ownership guarantees the cache has no
    /// other holder by now.
    pub fn into_results(self, cache: TxCache) -> (r: (TxResult, crate::tx_cache::BlockchainUpdate))
        requires
            cache.wf(),
        ensures
            r.0 == self.tx_result,
            r.1.wf(),
            r.1.accounts@ =~= cache.working@,
    {
        let updates = cache.into_blockchain_updates();
        (self.tx_result, updates)
    }

    pub fn input_ref(&self) -> (r: &TxInput)
        ensures
            r == &self.tx_input,
    {
        &self.tx_input
    }

    /// Take the in-progress result out, leaving an empty one.
    pub fn extract_result(&mut self) -> (r: TxResult)
        ensures
            r == old(self).tx_result,
            final(self).tx_result@ == empty_result_model(),
            final(self).tx_input == old(self).tx_input,
            final(self).managed_types == old(self).managed_types,
            final(self).b_rng == old(self).b_rng,
    {
        let mut taken = TxResult::empty();
        core::mem::swap(&mut taken, &mut self.tx_result);
        taken
    }

    /// The address of the contract this call runs as.
    pub fn get_sc_address(&self) -> (r: VMAddress)
        ensures
            r@ =~= self.tx_input.to@,
            self.tx_input.to.wf() ==> r.wf(),
    {
        self.tx_input.to.dup()
    }

    /// The caller's address.
    pub fn get_caller(&self) -> (r: VMAddress)
        ensures
            r@ =~= self.tx_input.from@,
            self.tx_input.from.wf() ==> r.wf(),
    {
        self.tx_input.from.dup()
    }

    pub fn get_tx_hash(&self) -> (r: Vec<u8>)
        ensures
            r@ =~= self.tx_input.tx_hash@,
    {
        copy_bytes(&self.tx_input.tx_hash)
    }

    pub fn get_gas_left(&self) -> (r: u64)
        ensures
            r == self.tx_input.gas_limit,
    {
        self.tx_input.gas_limit
    }

    /// The native-coin value this call carries.
    pub fn get_call_value_big_uint(&self) -> (r: BigUintValue)
        ensures
            r@ == self.tx_input@.egld_value,
            self.tx_input.egld_value.wf() ==> r.wf(),
    {
        self.tx_input.egld_value.dup()
    }

    /// The contract's own balance, as the call currently sees it.
    pub fn get_balance(&self, cache: &TxCache, address: &VMAddress) -> (r: BigUintValue)
        requires
            cache.wf(),
            address@ =~= self.tx_input.to@,
            cache.state().contains_key(address@),
        ensures
            r.wf(),
            r@ == cache.state()[address@].egld_balance,
    {
        let account = cache.get_account(address);
        account.egld_balance
    }

    /// The owner of the contract this call runs as.
    pub fn get_owner_address(&self, cache: &TxCache) -> (r: VMAddress)
        requires
            cache.wf(),
            cache.state().contains_key(self.tx_input.to@),
            cache.state()[self.tx_input.to@].contract_owner is Some,
        ensures
            r.wf(),
            cache.state()[self.tx_input.to@].contract_owner matches Some(o) ==> r@ =~= o,
    {
        let account = cache.get_account(&self.tx_input.to);
        match account.contract_owner {
            Some(o) => o,
            None => {
                proof {
                    assert(false);
                }
                VMAddress::zero()
            },
        }
    }

    /// The current block's timestamp, from the committed chain state.
    pub fn get_block_timestamp(&self, cache: &TxCache) -> (r: u64)
        ensures
            r == cache.committed.current_block_info.block_timestamp,
    {
        cache.blockchain_ref().current_block_info.block_timestamp
    }

    /// The current block's nonce.
    pub fn get_block_nonce(&self, cache: &TxCache) -> (r: u64)
        ensures
            r == cache.committed.current_block_info.block_nonce,
    {
        cache.blockchain_ref().current_block_info.block_nonce
    }

    /// The current block's round.
    pub fn get_block_round(&self, cache: &TxCache) -> (r: u64)
        ensures
            r == cache.committed.current_block_info.block_round,
    {
        cache.blockchain_ref().current_block_info.block_round
    }

    /// The current block's epoch.
    pub fn get_block_epoch(&self, cache: &TxCache) -> (r: u64)
        ensures
            r == cache.committed.current_block_info.block_epoch,
    {
        cache.blockchain_ref().current_block_info.block_epoch
    }

    pub fn get_num_arguments(&self) -> (r: usize)
        ensures
            r == self.tx_input@.args.len(),
    {
        self.tx_input.args.len()
    }

    /// One argument's bytes. An index out of declared range is a
    /// status-10 failure, never a crash.
    pub fn get_argument_vec_u8(&self, arg_index: usize) -> (r: Result<Vec<u8>, TxPanic>)
        ensures
            r is Ok <==> arg_index < self.tx_input@.args.len(),
            r matches Ok(v) ==> v@ =~= self.tx_input@.args[arg_index as int],
            r matches Err(p) ==> p.status == STATUS_VM_ERROR && p.message@
                =~= msg::msg_arg_out_of_range(),
    {
        if arg_index >= self.tx_input.args.len() {
            return Err(TxPanic::vm_error(msg::msg_arg_out_of_range_vec()));
        }
        Ok(copy_bytes(&self.tx_input.args[arg_index]))
    }

    /// The length of one argument.
    pub fn get_argument_len(&self, arg_index: usize) -> (r: Result<usize, TxPanic>)
        ensures
            r is Ok <==> arg_index < self.tx_input@.args.len(),
            r matches Ok(n) ==> n == self.tx_input@.args[arg_index as int].len(),
            r matches Err(p) ==> p.status == STATUS_VM_ERROR && p.message@
                =~= msg::msg_arg_out_of_range(),
    {
        if arg_index >= self.tx_input.args.len() {
            return Err(TxPanic::vm_error(msg::msg_arg_out_of_range_vec()));
        }
        Ok(self.tx_input.args[arg_index].len())
    }

    /// One argument as a 32-byte word, right-aligned and zero-padded.
    pub fn get_argument_bytes32(&self, arg_index: usize) -> (r: Result<Vec<u8>, TxPanic>)
        requires
            arg_index < self.tx_input@.args.len() ==> self.tx_input@.args[arg_index as int].len()
                <= 32,
        ensures
            r is Ok <==> arg_index < self.tx_input@.args.len(),
            r matches Ok(v) ==> v@.len() == 32 && v@ =~= zero_pad_32(
                self.tx_input@.args[arg_index as int],
            ),
            r matches Err(p) ==> p.status == STATUS_VM_ERROR && p.message@
                =~= msg::msg_arg_out_of_range(),
    {
        let arg = match self.get_argument_vec_u8(arg_index) {
            Ok(a) => a,
            Err(p) => {
                return Err(p);
            },
        };
        let mut res: Vec<u8> = Vec::new();
        let mut i: usize = 0;
        while i < 32
            invariant
                i <= 32,
                res@ =~= Seq::new(i as nat, |j: int| 0u8),
            decreases 32 - i,
        {
            res.push(0);
            i = i + 1;
        }
        let offset: usize = 32 - arg.len();
        let mut j: usize = 0;
        while j < arg.len()
            invariant
                j <= arg@.len(),
                arg@.len() <= 32,
                offset == 32 - arg@.len(),
                res@.len() == 32,
                forall|k: int| 0 <= k < offset ==> res@[k] == 0,
                forall|k: int| offset + j <= k < 32 ==> res@[k] == 0,
                forall|k: int| 0 <= k < j ==> res@[offset + k] == arg@[k],
            decreases arg.len() - j,
        {
            res[offset + j] = arg[j];
            j = j + 1;
        }
        proof {
            assert(res@ =~= zero_pad_32(arg@));
        }
        Ok(res)
    }

    /// One argument as an unsigned arbitrary-precision number.
    pub fn get_argument_big_uint(&self, arg_index: usize) -> (r: Result<BigUintValue, TxPanic>)
        ensures
            r is Ok <==> arg_index < self.tx_input@.args.len(),
            r matches Ok(v) ==> v.wf() && v@ == be_val(self.tx_input@.args[arg_index as int]),
            r matches Err(p) ==> p.status == STATUS_VM_ERROR && p.message@
                =~= msg::msg_arg_out_of_range(),
    {
        match self.get_argument_vec_u8(arg_index) {
            Ok(bytes) => Ok(BigUintValue::from_bytes_be(&bytes)),
            Err(p) => Err(p),
        }
    }

    /// One argument as a signed arbitrary-precision number.
    pub fn get_argument_big_int(&self, arg_index: usize) -> (r: Result<BigIntValue, TxPanic>)
        ensures
            r is Ok <==> arg_index < self.tx_input@.args.len(),
            r matches Ok(v) ==> v@ == signed_be_val(self.tx_input@.args[arg_index as int]),
            r matches Err(p) ==> p.status == STATUS_VM_ERROR && p.message@
                =~= msg::msg_arg_out_of_range(),
    {
        match self.get_argument_vec_u8(arg_index) {
            Ok(bytes) => Ok(BigIntValue::from_signed_bytes_be(&bytes)),
            Err(p) => Err(p),
        }
    }

    /// One argument as a 64-bit number: an index out of declared range,
    /// or an argument that cannot be represented at this precision, is a
    /// status-10 failure, not a crash.
    pub fn get_argument_i64(&self, arg_index: usize) -> (r: Result<i64, TxPanic>)
        ensures
            r is Ok <==> arg_index < self.tx_input@.args.len() && i64::MIN as int <= signed_be_val(
                self.tx_input@.args[arg_index as int],
            ) <= i64::MAX as int,
            r matches Ok(v) ==> v as int == signed_be_val(self.tx_input@.args[arg_index as int]),
            r matches Err(p) ==> p.status == STATUS_VM_ERROR && p.message@
                =~= msg::msg_arg_out_of_range(),
    {
        let bi = match self.get_argument_big_int(arg_index) {
            Ok(b) => b,
            Err(p) => {
                return Err(p);
            },
        };
        match bi.to_i64() {
            Some(v) => Ok(v),
            None => Err(TxPanic::vm_error(msg::msg_arg_out_of_range_vec())),
        }
    }

    /// Fails with the non-payable error exactly when the call carries value.
    pub fn check_not_payable(&self) -> (r: Result<(), TxPanic>)
        requires
            self.tx_input.egld_value.wf(),
        ensures
            r is Ok <==> self.tx_input@.egld_value == 0,
            r matches Err(p) ==> p.status == STATUS_USER_ERROR && p.message@
                =~= msg::msg_non_payable(),
    {
        if self.tx_input.egld_value.is_zero() {
            Ok(())
        } else {
            Err(TxPanic::user_error(msg::msg_non_payable_vec()))
        }
    }

    /// Append returned bytes to the in-progress result.
    pub fn finish_slice_u8(&mut self, slice: &Vec<u8>)
        ensures
            final(self).tx_result@ == (ResultModel {
                values: old(self).tx_result@.values.push(slice@),
                ..old(self).tx_result@
            }),
            final(self).tx_input == old(self).tx_input,
            final(self).managed_types == old(self).managed_types,
            final(self).b_rng == old(self).b_rng,
    {
        let v = copy_bytes(slice);
        self.tx_result.push_result_value(v);
    }

    /// Return a 32-byte word.
    pub fn finish_bytes32(&mut self, bytes: &Vec<u8>)
        requires
            bytes@.len() == 32,
        ensures
            final(self).tx_result@ == (ResultModel {
                values: old(self).tx_result@.values.push(bytes@),
                ..old(self).tx_result@
            }),
            final(self).tx_input == old(self).tx_input,
            final(self).managed_types == old(self).managed_types,
            final(self).b_rng == old(self).b_rng,
    {
        self.finish_slice_u8(bytes);
    }

    /// Return an unsigned number as its canonical big-endian bytes.
    pub fn finish_big_uint(&mut self, bu: &BigUintValue)
        requires
            bu.wf(),
        ensures
            final(self).tx_result@ == (ResultModel {
                values: old(self).tx_result@.values.push(bu.bytes@),
                ..old(self).tx_result@
            }),
            final(self).tx_input == old(self).tx_input,
            final(self).managed_types == old(self).managed_types,
            final(self).b_rng == old(self).b_rng,
    {
        let bytes = bu.to_bytes_be();
        self.finish_slice_u8(&bytes);
    }

    /// Return a signed number as its two's complement big-endian bytes.
    pub fn finish_big_int(&mut self, bi: &BigIntValue)
        ensures
            final(self).tx_result@ == (ResultModel {
                values: old(self).tx_result@.values.push(bi.bytes@),
                ..old(self).tx_result@
            }),
            final(self).tx_input == old(self).tx_input,
            final(self).managed_types == old(self).managed_types,
            final(self).b_rng == old(self).b_rng,
    {
        let bytes = bi.to_signed_bytes_be();
        self.finish_slice_u8(&bytes);
    }

    /// Return a 64-bit number in the signed encoding.
    pub fn finish_i64(&mut self, value: i64)
        ensures
            final(self).tx_result@.status == old(self).tx_result@.status,
            final(self).tx_result@.message == old(self).tx_result@.message,
            final(self).tx_result@.logs == old(self).tx_result@.logs,
            final(self).tx_result@.values.len() == old(self).tx_result@.values.len() + 1,
            signed_be_val(final(self).tx_result@.values.last()) == value as int,
            final(self).tx_result@.values.drop_last() == old(self).tx_result@.values,
            final(self).tx_input == old(self).tx_input,
            final(self).managed_types == old(self).managed_types,
            final(self).b_rng == old(self).b_rng,
    {
        let bi = BigIntValue::from_i64(value);
        self.finish_big_int(&bi);
        proof {
            assert(self.tx_result@.values.drop_last() =~= old(self).tx_result@.values);
        }
    }

    /// A contract-authored failure with the given message.
    pub fn signal_error(&self, message: &Vec<u8>) -> (r: TxPanic)
        ensures
            r.status == STATUS_USER_ERROR,
            r.message@ =~= message@,
    {
        TxPanic::user_error(copy_bytes(message))
    }

    /// The SHA3-256 digest of the data.
    pub fn sha256(&self, data: &Vec<u8>) -> (r: Vec<u8>)
        ensures
            r@ == sha3_256_of(data@),
            r@.len() == 32,
    {
        crate::crypto::sha3_256(data)
    }

    /// The Keccak-256 digest of the data.
    pub fn keccak256(&self, data: &Vec<u8>) -> (r: Vec<u8>)
        ensures
            r@ == keccak256_of(data@),
            r@.len() == 32,
    {
        crate::crypto::keccak256(data)
    }

    /// Write to the contract account's storage, through the cache.
    pub fn storage_store(&self, cache: &mut TxCache, key: &Vec<u8>, value: &Vec<u8>) -> (r: Result<
        (),
        TxPanic,
    >)
        requires
            old(cache).wf(),
            old(cache).state().contains_key(self.tx_input.to@),
        ensures
            final(cache).wf(),
            is_reserved_key(key@) ==> r is Err && *final(cache) == *old(cache),
            r matches Err(p) ==> is_reserved_key(key@) && p.status == STATUS_VM_ERROR
                && p.message@ =~= msg::msg_reserved_key(),
            !is_reserved_key(key@) ==> r is Ok && final(cache).state() =~= old(
                cache,
            ).state().insert(
                self.tx_input.to@,
                (AccountModel {
                    storage: old(cache).state()[self.tx_input.to@].storage.insert(key@, value@),
                    ..old(cache).state()[self.tx_input.to@]
                }),
            ),
            forall|k: Seq<u8>|
                old(cache).working@.contains_key(k) ==> final(cache).working@.contains_key(k),
            final(cache).committed == old(cache).committed,
    {
        let mut account = cache.get_account(&self.tx_input.to);
        let result = account.storage_store(key, value);
        match result {
            Ok(_) => {
                cache.set_account_at(&self.tx_input.to, account);
                Ok(())
            },
            Err(p) => Err(p),
        }
    }

    /// Read from the contract account's storage; a key never written reads
    /// as the empty string.
    pub fn storage_load(&self, cache: &TxCache, key: &Vec<u8>) -> (r: Vec<u8>)
        requires
            cache.wf(),
            cache.state().contains_key(self.tx_input.to@),
        ensures
            r@ =~= stored_value(cache.state()[self.tx_input.to@].storage, key@),
    {
        let account = cache.get_account(&self.tx_input.to);
        account.storage_load(key)
    }

    pub fn storage_load_len(&self, cache: &TxCache, key: &Vec<u8>) -> (r: usize)
        requires
            cache.wf(),
            cache.state().contains_key(self.tx_input.to@),
        ensures
            r == stored_value(cache.state()[self.tx_input.to@].storage, key@).len(),
    {
        let account = cache.get_account(&self.tx_input.to);
        account.storage_load_len(key)
    }

    /// Store a full 32-byte word in the contract account's storage.
    pub fn storage_store_bytes32(&self, cache: &mut TxCache, key: &Vec<u8>, value: &Vec<u8>) -> (r:
        Result<(), TxPanic>)
        requires
            old(cache).wf(),
            old(cache).state().contains_key(self.tx_input.to@),
            value@.len() == 32,
        ensures
            final(cache).wf(),
            is_reserved_key(key@) ==> r is Err && *final(cache) == *old(cache),
            r matches Err(p) ==> is_reserved_key(key@) && p.status == STATUS_VM_ERROR
                && p.message@ =~= msg::msg_reserved_key(),
            !is_reserved_key(key@) ==> r is Ok && final(cache).state() =~= old(
                cache,
            ).state().insert(
                self.tx_input.to@,
                (AccountModel {
                    storage: old(cache).state()[self.tx_input.to@].storage.insert(key@, value@),
                    ..old(cache).state()[self.tx_input.to@]
                }),
            ),
            forall|k: Seq<u8>|
                old(cache).working@.contains_key(k) ==> final(cache).working@.contains_key(k),
            final(cache).committed == old(cache).committed,
    {
        self.storage_store(cache, key, value)
    }

    /// Load a 32-byte word from the contract account's storage:
    /// right-aligned, zero-padded; a key never written reads as 32 zeros.
    pub fn storage_load_bytes32(&self, cache: &TxCache, key: &Vec<u8>) -> (r: Vec<u8>)
        requires
            cache.wf(),
            cache.state().contains_key(self.tx_input.to@),
            stored_value(cache.state()[self.tx_input.to@].storage, key@).len() <= 32,
        ensures
            r@.len() == 32,
            r@ =~= zero_pad_32(stored_value(cache.state()[self.tx_input.to@].storage, key@)),
    {
        let account = cache.get_account(&self.tx_input.to);
        account.storage_load_bytes32(key)
    }

    /// Store an unsigned arbitrary-precision number.
    pub fn storage_store_big_uint(&self, cache: &mut TxCache, key: &Vec<u8>, value: &BigUintValue)
        -> (r: Result<(), TxPanic>)
        requires
            old(cache).wf(),
            old(cache).state().contains_key(self.tx_input.to@),
            value.wf(),
        ensures
            final(cache).wf(),
            is_reserved_key(key@) ==> r is Err && *final(cache) == *old(cache),
            r matches Err(p) ==> is_reserved_key(key@) && p.status == STATUS_VM_ERROR
                && p.message@ =~= msg::msg_reserved_key(),
            !is_reserved_key(key@) ==> r is Ok && final(cache).state() =~= old(
                cache,
            ).state().insert(
                self.tx_input.to@,
                (AccountModel {
                    storage: old(cache).state()[self.tx_input.to@].storage.insert(
                        key@,
                        value.bytes@,
                    ),
                    ..old(cache).state()[self.tx_input.to@]
                }),
            ),
            forall|k: Seq<u8>|
                old(cache).working@.contains_key(k) ==> final(cache).working@.contains_key(k),
            final(cache).committed == old(cache).committed,
    {
        let bytes = value.to_bytes_be();
        self.storage_store(cache, key, &bytes)
    }

    /// Load an unsigned arbitrary-precision number; a key never written
    /// reads as zero.
    pub fn storage_load_big_uint(&self, cache: &TxCache, key: &Vec<u8>) -> (r: BigUintValue)
        requires
            cache.wf(),
            cache.state().contains_key(self.tx_input.to@),
        ensures
            r.wf(),
            r@ == be_val(stored_value(cache.state()[self.tx_input.to@].storage, key@)),
    {
        let account = cache.get_account(&self.tx_input.to);
        account.storage_load_big_uint(key)
    }

    /// Store a signed arbitrary-precision number.
    pub fn storage_store_big_int(&self, cache: &mut TxCache, key: &Vec<u8>, value: &BigIntValue)
        -> (r: Result<(), TxPanic>)
        requires
            old(cache).wf(),
            old(cache).state().contains_key(self.tx_input.to@),
        ensures
            final(cache).wf(),
            is_reserved_key(key@) ==> r is Err && *final(cache) == *old(cache),
            r matches Err(p) ==> is_reserved_key(key@) && p.status == STATUS_VM_ERROR
                && p.message@ =~= msg::msg_reserved_key(),
            !is_reserved_key(key@) ==> r is Ok && final(cache).state() =~= old(
                cache,
            ).state().insert(
                self.tx_input.to@,
                (AccountModel {
                    storage: old(cache).state()[self.tx_input.to@].storage.insert(
                        key@,
                        value.bytes@,
                    ),
                    ..old(cache).state()[self.tx_input.to@]
                }),
            ),
            forall|k: Seq<u8>|
                old(cache).working@.contains_key(k) ==> final(cache).working@.contains_key(k),
            final(cache).committed == old(cache).committed,
    {
        let bytes = value.to_signed_bytes_be();
        self.storage_store(cache, key, &bytes)
    }

    /// Load a signed arbitrary-precision number; a key never written reads
    /// as zero.
    pub fn storage_load_big_int(&self, cache: &TxCache, key: &Vec<u8>) -> (r: BigIntValue)
        requires
            cache.wf(),
            cache.state().contains_key(self.tx_input.to@),
        ensures
            r@ == signed_be_val(stored_value(cache.state()[self.tx_input.to@].storage, key@)),
    {
        let account = cache.get_account(&self.tx_input.to);
        account.storage_load_big_int(key)
    }

    /// Store a 64-bit number in the signed encoding.
    pub fn storage_store_i64(&self, cache: &mut TxCache, key: &Vec<u8>, value: i64) -> (r: Result<
        (),
        TxPanic,
    >)
        requires
            old(cache).wf(),
            old(cache).state().contains_key(self.tx_input.to@),
        ensures
            final(cache).wf(),
            is_reserved_key(key@) ==> r is Err && *final(cache) == *old(cache),
            r matches Err(p) ==> is_reserved_key(key@) && p.status == STATUS_VM_ERROR
                && p.message@ =~= msg::msg_reserved_key(),
            !is_reserved_key(key@) ==> r is Ok && (exists|b: Seq<u8>|
                #[trigger] signed_be_val(b) == value as int && final(cache).state() =~= old(
                    cache,
                ).state().insert(
                    self.tx_input.to@,
                    (AccountModel {
                        storage: old(cache).state()[self.tx_input.to@].storage.insert(key@, b),
                        ..old(cache).state()[self.tx_input.to@]
                    }),
                )),
            !is_reserved_key(key@) ==> signed_be_val(
                final(cache).state()[self.tx_input.to@].storage[key@],
            ) == value as int && final(cache).state()[self.tx_input.to@].storage.contains_key(key@),
            forall|k: Seq<u8>|
                old(cache).working@.contains_key(k) ==> final(cache).working@.contains_key(k),
            final(cache).committed == old(cache).committed,
    {
        let bi = BigIntValue::from_i64(value);
        let r = self.storage_store_big_int(cache, key, &bi);
        proof {
            if !is_reserved_key(key@) {
                let b = bi.bytes@;
                assert(signed_be_val(b) == value as int && cache.state() =~= old(
                    cache,
                ).state().insert(
                    self.tx_input.to@,
                    (AccountModel {
                        storage: old(cache).state()[self.tx_input.to@].storage.insert(key@, b),
                        ..old(cache).state()[self.tx_input.to@]
                    }),
                ));
            }
        }
        r
    }

    /// Load a 64-bit number, if the stored value fits.
    pub fn storage_load_i64(&self, cache: &TxCache, key: &Vec<u8>) -> (r: Option<i64>)
        requires
            cache.wf(),
            cache.state().contains_key(self.tx_input.to@),
        ensures
            r is Some <==> i64::MIN as int <= signed_be_val(
                stored_value(cache.state()[self.tx_input.to@].storage, key@),
            ) <= i64::MAX as int,
            r matches Some(v) ==> v as int == signed_be_val(
                stored_value(cache.state()[self.tx_input.to@].storage, key@),
            ),
    {
        let bi = self.storage_load_big_int(cache, key);
        bi.to_i64()
    }
}

/// The call-depth-ordered stack of active contexts. Pushing a frame
/// suspends the enclosing call without destroying it; popping restores
/// exactly the previous frame.
pub struct TxContextStack {
    pub frames: Vec<TxContext>,
}

impl TxContextStack {
    pub fn new() -> (r: TxContextStack)
        ensures
            r.frames@.len() == 0,
    {
        TxContextStack { frames: Vec::new() }
    }

    pub fn depth(&self) -> (r: usize)
        ensures
            r == self.frames@.len(),
    {
        self.frames.len()
    }

    /// Enter a nested call: a fresh context for the input goes on top.
    /// The new frame's scratch space and result start empty — scratch
    /// state is reset on every push, never inherited.
    pub fn push_frame(&mut self, tx_input: TxInput, cache: &TxCache)
        ensures
            final(self).frames@.len() == old(self).frames@.len() + 1,
            final(self).frames@.drop_last() =~= old(self).frames@,
            final(self).frames@.last().tx_input == tx_input,
            final(self).frames@.last().managed_types.buffers@.len() == 0,
            final(self).frames@.last().managed_types.big_ints@.len() == 0,
            final(self).frames@.last().tx_result@ == empty_result_model(),
    {
        let ctx = TxContext::new(tx_input, cache);
        self.frames.push(ctx);
        proof {
            assert(self.frames@.drop_last() =~= old(self).frames@);
        }
    }

    /// Leave the innermost call: the top frame comes off, and the
    /// enclosing frame stands exactly as it was left.
    pub fn pop_frame(&mut self) -> (r: TxContext)
        requires
            old(self).frames@.len() > 0,
        ensures
            r == old(self).frames@.last(),
            final(self).frames@ =~= old(self).frames@.drop_last(),
    {
        let r = self.frames.pop();
        match r {
            Some(ctx) => ctx,
            None => {
                proof {
                    assert(false);
                }
                dummy_frame()
            },
        }
    }

    /// The currently active call's context.
    pub fn current(&self) -> (r: &TxContext)
        requires
            self.frames@.len() > 0,
        ensures
            r == &self.frames@.last(),
    {
        &self.frames[self.frames.len() - 1]
    }

    /// Take the currently active context off the stack to work on it;
    /// `restore_current` puts it back.
    pub fn take_current(&mut self) -> (r: TxContext)
        requires
            old(self).frames@.len() > 0,
        ensures
            r == old(self).frames@.last(),
            final(self).frames@ =~= old(self).frames@.drop_last(),
    {
        self.pop_frame()
    }

    /// Put a worked-on context back on top of the stack.
    pub fn restore_current(&mut self, ctx: TxContext)
        ensures
            final(self).frames@.len() == old(self).frames@.len() + 1,
            final(self).frames@.drop_last() =~= old(self).frames@,
            final(self).frames@.last() == ctx,
    {
        self.frames.push(ctx);
        proof {
            assert(self.frames@.drop_last() =~= old(self).frames@);
        }
    }
}

/// A placeholder frame (the unreachable arm of `pop_frame`).
fn dummy_frame() -> (r: TxContext) {
    let cache = TxCache::new(crate::tx_cache::BlockchainState::new());
    TxContext::new(dummy_input(), &cache)
}

/// A placeholder input (the unreachable arm of `pop_frame`).
fn dummy_input() -> (r: TxInput)
{
    TxInput {
        from: VMAddress::zero(),
        to: VMAddress::zero(),
        egld_value: BigUintValue::zero(),
        esdt_values: Vec::new(),
        func_name: Vec::new(),
        args: Vec::new(),
        gas_limit: 0,
        gas_price: 0,
        tx_hash: Vec::new(),
    }
}

} // verus!
