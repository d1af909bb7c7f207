//! The committed account store and the speculative transaction cache.
//!
//! The cache is a copy-on-write overlay over the committed store: reads
//! fall through when no cached override exists, writes only ever touch the
//! overlay. Transfers are all-or-nothing: either both legs apply, or the
//! attempt fails with an insufficient-funds panic and the cache is left
//! exactly as it was. Consuming the cache yields the `BlockchainUpdate`,
//! the materialized delta a caller outside this engine applies.

use vstd::prelude::*;

use crate::account::{esdt_balance_of, esdt_key_seq, AccountData, AccountModel};
use crate::address::{derive_new_address, is_sc_address, new_address_seq, VMAddress};
use crate::bigint::BigUintValue;
use crate::kv::KvMap;
use crate::msg;
use crate::tx_result::{TxPanic, STATUS_VM_ERROR};

verus! {

/// Block metadata the environment exposes to contracts.
pub struct BlockInfo {
    pub block_timestamp: u64,
    pub block_nonce: u64,
    pub block_round: u64,
    pub block_epoch: u64,
}

impl BlockInfo {
    pub fn new() -> (r: BlockInfo)
        ensures
            r.block_timestamp == 0,
            r.block_nonce == 0,
            r.block_round == 0,
            r.block_epoch == 0,
    {
        BlockInfo { block_timestamp: 0, block_nonce: 0, block_round: 0, block_epoch: 0 }
    }
}

/// Every account in a store is well-formed.
pub open spec fn accounts_wf(m: KvMap<AccountData>) -> bool {
    m.all_values(|a: AccountData| a.wf())
}

/// The ledger's ground truth: the committed set of accounts, plus block
/// metadata.
pub struct BlockchainState {
    pub accounts: KvMap<AccountData>,
    pub current_block_info: BlockInfo,
}

impl BlockchainState {
    pub open spec fn wf(&self) -> bool {
        self.accounts.wf() && accounts_wf(self.accounts)
    }

    pub fn new() -> (r: BlockchainState)
        ensures
            r.wf(),
            r.accounts@ =~= Map::<Seq<u8>, AccountModel>::empty(),
    {
        BlockchainState { accounts: KvMap::new(), current_block_info: BlockInfo::new() }
    }

    pub fn account_exists(&self, address: &VMAddress) -> (r: bool)
        ensures
            r == self.accounts@.contains_key(address@),
    {
        let key = address.to_vec();
        self.accounts.contains_key(&key)
    }

    /// Install an account in the committed store (ledger setup, outside any
    /// transaction).
    pub fn put_account(&mut self, account: AccountData)
        requires
            old(self).wf(),
            account.wf(),
        ensures
            final(self).wf(),
            final(self).accounts@ =~= old(self).accounts@.insert(account.address@, account@),
            final(self).current_block_info == old(self).current_block_info,
    {
        proof {
            assert(old(self).accounts.all_values(|a: AccountData| a.wf()) && (|a: AccountData|
                a.wf())(account));
        }
        let key = account.address.to_vec();
        self.accounts.insert(key, account);
    }
}

/// The materialized delta of one transaction: the new and modified
/// accounts, ready for a caller to commit.
pub struct BlockchainUpdate {
    pub accounts: KvMap<AccountData>,
}

impl BlockchainUpdate {
    /// The empty delta: a failed transaction leaves no entries.
    pub fn empty() -> (r: BlockchainUpdate)
        ensures
            r.accounts@ =~= Map::<Seq<u8>, AccountModel>::empty(),
            r.accounts.entries@.len() == 0,
            r.wf(),
    {
        BlockchainUpdate { accounts: KvMap::new() }
    }

    pub open spec fn wf(&self) -> bool {
        self.accounts.wf() && accounts_wf(self.accounts)
    }

    pub fn is_empty(&self) -> (r: bool)
        ensures
            r == (self.accounts.entries@.len() == 0),
    {
        self.accounts.entries.len() == 0
    }
}

/// The speculative, copy-on-write overlay over the committed store, for
/// one top-level transaction.
pub struct TxCache {
    pub committed: BlockchainState,
    pub working: KvMap<AccountData>,
}

impl TxCache {
    /// The account state a transaction sees: the overlay wins over the
    /// committed store.
    pub open spec fn state(&self) -> Map<Seq<u8>, AccountModel> {
        self.committed.accounts@.union_prefer_right(self.working@)
    }

    pub open spec fn wf(&self) -> bool {
        self.committed.wf() && self.working.wf() && accounts_wf(self.working)
    }

    pub fn new(committed: BlockchainState) -> (r: TxCache)
        requires
            committed.wf(),
        ensures
            r.wf(),
            r.state() =~= committed.accounts@,
            r.working@ =~= Map::<Seq<u8>, AccountModel>::empty(),
    {
        TxCache { committed, working: KvMap::new() }
    }

    /// A read-only handle on the committed store.
    pub fn blockchain_ref(&self) -> (r: &BlockchainState)
        ensures
            r == &self.committed,
    {
        &self.committed
    }

    pub fn account_exists(&self, address: &VMAddress) -> (r: bool)
        ensures
            r == self.state().contains_key(address@),
    {
        let key = address.to_vec();
        self.working.contains_key(&key) || self.committed.accounts.contains_key(&key)
    }

    /// A copy of the account the transaction currently sees, materialized
    /// from the committed store when the overlay has no entry yet.
    pub fn get_account(&self, address: &VMAddress) -> (r: AccountData)
        requires
            self.wf(),
            self.state().contains_key(address@),
        ensures
            r.wf(),
            r@ == self.state()[address@],
    {
        let key = address.to_vec();
        match self.working.get(&key) {
            Some(a) => {
                proof {
                    assert(accounts_wf(self.working));
                    assert((|acc: AccountData| acc.wf())(*a));
                }
                a.dup()
            },
            None => {
                let a = self.committed.accounts.get(&key);
                match a {
                    Some(a) => {
                        proof {
                            assert(accounts_wf(self.committed.accounts));
                            assert((|acc: AccountData| acc.wf())(*a));
                        }
                        a.dup()
                    },
                    None => {
                        proof {
                            assert(false);
                        }
                        AccountData::new(VMAddress::zero())
                    },
                }
            },
        }
    }

    /// Write an account back into the overlay, under the given address.
    pub fn set_account_at(&mut self, address: &VMAddress, account: AccountData)
        requires
            old(self).wf(),
            account.wf(),
        ensures
            final(self).wf(),
            final(self).state() =~= old(self).state().insert(address@, account@),
            final(self).working@ =~= old(self).working@.insert(address@, account@),
            final(self).committed == old(self).committed,
    {
        proof {
            assert(old(self).working.all_values(|a: AccountData| a.wf()) && (|a: AccountData|
                a.wf())(account));
        }
        let key = address.to_vec();
        self.working.insert(key, account);
    }

    /// Register a new account. The address must be free: a deploy-address
    /// collision is fatal, never a silent overwrite.
    pub fn insert_account(&mut self, account: AccountData)
        requires
            old(self).wf(),
            account.wf(),
            !old(self).state().contains_key(account.address@),
        ensures
            final(self).wf(),
            final(self).state() =~= old(self).state().insert(account.address@, account@),
            final(self).working@ =~= old(self).working@.insert(account.address@, account@),
            final(self).committed == old(self).committed,
    {
        let address = account.address.dup();
        self.set_account_at(&address, account)
    }

    /// Debit the account: all-or-nothing. On insufficient funds the cache
    /// is left exactly as it was and a status-10 panic is returned.
    pub fn subtract_egld_balance(&mut self, address: &VMAddress, value: &BigUintValue) -> (r:
        Result<(), TxPanic>)
        requires
            old(self).wf(),
            old(self).state().contains_key(address@),
            value.wf(),
        ensures
            final(self).wf(),
            old(self).state()[address@].egld_balance < value@ <==> r is Err,
            r is Err ==> *final(self) == *old(self),
            r matches Err(p) ==> p.status == STATUS_VM_ERROR && p.message@
                =~= msg::msg_insufficient_funds(),
            r is Ok ==> final(self).state() =~= old(self).state().insert(
                address@,
                (AccountModel {
                    egld_balance: (old(self).state()[address@].egld_balance - value@) as nat,
                    ..old(self).state()[address@]
                }),
            ),
            r is Ok ==> final(self).working@.dom() =~= old(self).working@.dom().insert(address@),
            r is Ok ==> final(self).committed == old(self).committed,
    {
        let mut account = self.get_account(address);
        match account.egld_balance.checked_sub(value) {
            Some(rest) => {
                account.egld_balance = rest;
                self.set_account_at(address, account);
                Ok(())
            },
            None => Err(TxPanic::vm_error(msg::msg_insufficient_funds_vec())),
        }
    }

    /// Credit the account.
    pub fn increase_egld_balance(&mut self, address: &VMAddress, value: &BigUintValue)
        requires
            old(self).wf(),
            old(self).state().contains_key(address@),
            value.wf(),
        ensures
            final(self).wf(),
            final(self).state() =~= old(self).state().insert(
                address@,
                (AccountModel {
                    egld_balance: old(self).state()[address@].egld_balance + value@,
                    ..old(self).state()[address@]
                }),
            ),
            final(self).working@.dom() =~= old(self).working@.dom().insert(address@),
            final(self).committed == old(self).committed,
    {
        let mut account = self.get_account(address);
        let increased = account.egld_balance.add(value);
        account.egld_balance = increased;
        self.set_account_at(address, account);
    }

    /// Move native-coin value between two accounts, atomically: both legs
    /// apply, or neither does and the insufficient-funds panic is returned.
    pub fn transfer_egld_balance(&mut self, from: &VMAddress, to: &VMAddress, value: &BigUintValue)
        -> (r: Result<(), TxPanic>)
        requires
            old(self).wf(),
            old(self).state().contains_key(from@),
            old(self).state().contains_key(to@),
            value.wf(),
        ensures
            final(self).wf(),
            old(self).state()[from@].egld_balance < value@ <==> r is Err,
            r is Err ==> *final(self) == *old(self),
            r matches Err(p) ==> p.status == STATUS_VM_ERROR && p.message@
                =~= msg::msg_insufficient_funds(),
            r is Ok ==> final(self).state() =~= transfer_applied(
                old(self).state(),
                from@,
                to@,
                value@,
            ),
            r is Ok ==> final(self).working@.dom() =~= old(self).working@.dom().insert(
                from@,
            ).insert(to@),
            r is Ok ==> final(self).committed == old(self).committed,
    {
        let result = self.subtract_egld_balance(from, value);
        match result {
            Ok(_) => {
                self.increase_egld_balance(to, value);
                Ok(())
            },
            Err(p) => Err(p),
        }
    }

    /// Move a secondary-token balance between two accounts, atomically,
    /// with the same all-or-nothing discipline as the native coin.
    pub fn transfer_esdt_balance(
        &mut self,
        from: &VMAddress,
        to: &VMAddress,
        token: &Vec<u8>,
        nonce: u64,
        value: &BigUintValue,
    ) -> (r: Result<(), TxPanic>)
        requires
            old(self).wf(),
            old(self).state().contains_key(from@),
            old(self).state().contains_key(to@),
            value.wf(),
        ensures
            final(self).wf(),
            esdt_balance_of(old(self).state()[from@].esdt, esdt_key_seq(token@, nonce)) < value@
                <==> r is Err,
            r is Err ==> *final(self) == *old(self),
            r matches Err(p) ==> p.status == STATUS_VM_ERROR && p.message@
                =~= msg::msg_insufficient_funds(),
            r is Ok ==> final(self).state() =~= esdt_transfer_applied(
                old(self).state(),
                from@,
                to@,
                esdt_key_seq(token@, nonce),
                value@,
            ),
            r is Ok ==> final(self).working@.dom() =~= old(self).working@.dom().insert(
                from@,
            ).insert(to@),
            r is Ok ==> final(self).committed == old(self).committed,
    {
        let mut sender = self.get_account(from);
        let sender_balance = sender.esdt_balance(token, nonce);
        match sender_balance.checked_sub(value) {
            Some(rest) => {
                sender.esdt_set_balance(token, nonce, rest);
                self.set_account_at(from, sender);
                let mut recipient = self.get_account(to);
                let recipient_balance = recipient.esdt_balance(token, nonce);
                let increased = recipient_balance.add(value);
                recipient.esdt_set_balance(token, nonce, increased);
                self.set_account_at(to, recipient);
                Ok(())
            },
            None => Err(TxPanic::vm_error(msg::msg_insufficient_funds_vec())),
        }
    }

    /// The address the next deploy by `creator` is given: a pure function
    /// of the creator and its current nonce in cache-visible state.
    pub fn get_new_address(&self, creator: &VMAddress) -> (r: VMAddress)
        requires
            self.wf(),
            self.state().contains_key(creator@),
            creator.wf(),
        ensures
            r.wf(),
            r@ =~= new_address_seq(creator@, self.state()[creator@].nonce),
            is_sc_address(r@),
    {
        let account = self.get_account(creator);
        derive_new_address(creator, account.nonce)
    }

    /// Consume the cache into the delta of this transaction. The cache is
    /// owned uniquely by then; the overlay simply becomes the delta.
    pub fn into_blockchain_updates(self) -> (r: BlockchainUpdate)
        requires
            self.wf(),
        ensures
            r.wf(),
            r.accounts@ =~= self.working@,
    {
        BlockchainUpdate { accounts: self.working }
    }
}

/// One native-coin transfer applied to the account map: the sender debited
/// first, the recipient credited second (so a self-transfer nets to no
/// change).
pub open spec fn transfer_applied(
    s: Map<Seq<u8>, AccountModel>,
    from: Seq<u8>,
    to: Seq<u8>,
    value: nat,
) -> Map<Seq<u8>, AccountModel>
    recommends
        s.contains_key(from),
        s.contains_key(to),
        value <= s[from].egld_balance,
{
    let s1 = s.insert(
        from,
        AccountModel { egld_balance: (s[from].egld_balance - value) as nat, ..s[from] },
    );
    s1.insert(to, AccountModel { egld_balance: s1[to].egld_balance + value, ..s1[to] })
}

/// One secondary-token transfer applied to the account map, sender first.
pub open spec fn esdt_transfer_applied(
    s: Map<Seq<u8>, AccountModel>,
    from: Seq<u8>,
    to: Seq<u8>,
    key: Seq<u8>,
    value: nat,
) -> Map<Seq<u8>, AccountModel>
    recommends
        s.contains_key(from),
        s.contains_key(to),
        value <= esdt_balance_of(s[from].esdt, key),
{
    let s1 = s.insert(
        from,
        AccountModel {
            esdt: s[from].esdt.insert(key, (esdt_balance_of(s[from].esdt, key) - value) as nat),
            ..s[from]
        },
    );
    s1.insert(
        to,
        AccountModel {
            esdt: s1[to].esdt.insert(key, esdt_balance_of(s1[to].esdt, key) + value),
            ..s1[to]
        },
    )
}

} // verus!
