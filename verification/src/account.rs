//! The account/contract data model and the storage access primitives
//! consumed by dispatched contract code.
//!
//! Storage keys beginning with the reserved marker are write-protected:
//! every write attempt fails with a status-10 panic and leaves storage
//! unmodified. Fixed-width (32-byte) values are stored and loaded with
//! right-alignment and zero left-padding. Arbitrary-precision integers are
//! encoded as big-endian unsigned or signed (two's complement) byte
//! strings.

use vstd::prelude::*;

use crate::address::VMAddress;
use crate::bigint::{BigIntValue, BigUintValue};
use crate::bytes::{be_val, bytes_start_with, copy_bytes, nat_be, signed_be_val, u64_to_be_bytes};
use crate::kv::{lemma_entries_map_congruence, KvEntry, KvMap};
use crate::msg;
use crate::tx_result::{TxPanic, STATUS_VM_ERROR};

verus! {

/// Is the key engine-owned (write-protected)?
pub open spec fn is_reserved_key(k: Seq<u8>) -> bool {
    msg::reserved_key_prefix().is_prefix_of(k)
}

/// The value stored under a key, or the empty string when the key was
/// never written: a missing key is a defined, empty value, not a failure.
pub open spec fn stored_value(m: Map<Seq<u8>, Seq<u8>>, k: Seq<u8>) -> Seq<u8> {
    if m.contains_key(k) {
        m[k]
    } else {
        Seq::empty()
    }
}

/// A value right-aligned in a 32-byte word, zero-padded on the left.
pub open spec fn zero_pad_32(v: Seq<u8>) -> Seq<u8>
    recommends
        v.len() <= 32,
{
    Seq::new(
        32,
        |i: int|
            if i < 32 - v.len() {
                0u8
            } else {
                v[i - (32 - v.len())]
            },
    )
}

/// The ledger key of one secondary-token balance: the token identifier,
/// length-prefixed so distinct (identifier, nonce) pairs never collide,
/// followed by the big-endian nonce.
pub open spec fn esdt_key_seq(token: Seq<u8>, nonce: u64) -> Seq<u8> {
    nat_be(token.len(), 8) + token + nat_be(nonce as nat, 8)
}

/// The balance a token ledger holds under a key; an absent key is zero.
pub open spec fn esdt_balance_of(m: Map<Seq<u8>, nat>, k: Seq<u8>) -> nat {
    if m.contains_key(k) {
        m[k]
    } else {
        0
    }
}

/// The spec-level shape of one account.
pub struct AccountModel {
    pub address: Seq<u8>,
    pub nonce: u64,
    pub egld_balance: nat,
    pub storage: Map<Seq<u8>, Seq<u8>>,
    pub esdt: Map<Seq<u8>, nat>,
    pub username: Seq<u8>,
    pub contract_path: Option<Seq<u8>>,
    pub contract_owner: Option<Seq<u8>>,
    pub developer_rewards: nat,
}

/// One ledger entity: balances, storage, token ledger, and the optional
/// deployed-contract reference with its owner.
pub struct AccountData {
    pub address: VMAddress,
    pub nonce: u64,
    pub egld_balance: BigUintValue,
    pub storage: KvMap<Vec<u8>>,
    pub esdt: KvMap<BigUintValue>,
    pub username: Vec<u8>,
    pub contract_path: Option<Vec<u8>>,
    pub contract_owner: Option<VMAddress>,
    pub developer_rewards: BigUintValue,
}

impl View for AccountData {
    type V = AccountModel;

    open spec fn view(&self) -> AccountModel {
        AccountModel {
            address: self.address@,
            nonce: self.nonce,
            egld_balance: self.egld_balance@,
            storage: self.storage@,
            esdt: self.esdt@,
            username: self.username@,
            contract_path: match self.contract_path {
                Some(p) => Some(p@),
                None => None,
            },
            contract_owner: match self.contract_owner {
                Some(o) => Some(o@),
                None => None,
            },
            developer_rewards: self.developer_rewards@,
        }
    }
}

/// Every token-ledger entry holds a canonical balance.
pub open spec fn esdt_values_wf(m: KvMap<BigUintValue>) -> bool {
    m.all_values(|v: BigUintValue| v.wf())
}

impl AccountData {
    pub open spec fn wf(&self) -> bool {
        &&& self.address.wf()
        &&& self.egld_balance.wf()
        &&& self.storage.wf()
        &&& self.esdt.wf()
        &&& esdt_values_wf(self.esdt)
        &&& (self.contract_owner matches Some(o) ==> o.wf())
        &&& self.developer_rewards.wf()
    }

    /// Is a contract deployed at this account?
    pub open spec fn spec_is_contract(&self) -> bool {
        self.contract_path is Some
    }

    /// A fresh account: zero nonce, zero balances, empty storage.
    pub fn new(address: VMAddress) -> (r: AccountData)
        requires
            address.wf(),
        ensures
            r.wf(),
            r@ == (AccountModel {
                address: address@,
                nonce: 0,
                egld_balance: 0,
                storage: Map::empty(),
                esdt: Map::empty(),
                username: Seq::empty(),
                contract_path: None,
                contract_owner: None,
                developer_rewards: 0,
            }),
    {
        let r = AccountData {
            address,
            nonce: 0,
            egld_balance: BigUintValue::zero(),
            storage: KvMap::new(),
            esdt: KvMap::new(),
            username: Vec::new(),
            contract_path: None,
            contract_owner: None,
            developer_rewards: BigUintValue::zero(),
        };
        proof {
            assert(r@.storage =~= Map::<Seq<u8>, Seq<u8>>::empty());
            assert(r@.esdt =~= Map::<Seq<u8>, nat>::empty());
        }
        r
    }

    /// A deep copy with the same model.
    pub fn dup(&self) -> (r: AccountData)
        requires
            self.wf(),
        ensures
            r.wf(),
            r@ == self@,
    {
        let r = AccountData {
            address: self.address.dup(),
            nonce: self.nonce,
            egld_balance: self.egld_balance.dup(),
            storage: dup_byte_map(&self.storage),
            esdt: dup_value_map(&self.esdt),
            username: copy_bytes(&self.username),
            contract_path: match &self.contract_path {
                Some(p) => Some(copy_bytes(p)),
                None => None,
            },
            contract_owner: match &self.contract_owner {
                Some(o) => Some(o.dup()),
                None => None,
            },
            developer_rewards: self.developer_rewards.dup(),
        };
        r
    }

    /// Write a storage value. A key under the reserved marker is never
    /// writable: the attempt fails with status 10 and storage is unchanged.
    pub fn storage_store(&mut self, key: &Vec<u8>, value: &Vec<u8>) -> (r: Result<(), TxPanic>)
        requires
            old(self).wf(),
        ensures
            final(self).wf(),
            is_reserved_key(key@) ==> r is Err && *final(self) == *old(self),
            r matches Err(p) ==> is_reserved_key(key@) && p.status == STATUS_VM_ERROR
                && p.message@ =~= msg::msg_reserved_key(),
            !is_reserved_key(key@) ==> r is Ok && final(self)@ == (AccountModel {
                storage: old(self)@.storage.insert(key@, value@),
                ..old(self)@
            }),
    {
        let prefix = msg::reserved_key_prefix_vec();
        if bytes_start_with(key, &prefix) {
            proof {
                assert(msg::reserved_key_prefix().is_prefix_of(key@));
            }
            return Err(TxPanic::vm_error(msg::msg_reserved_key_vec()));
        }
        proof {
            assert(!is_reserved_key(key@));
        }
        self.storage.insert(copy_bytes(key), copy_bytes(value));
        Ok(())
    }

    /// Read a storage value; a key never written reads as the empty string.
    pub fn storage_load(&self, key: &Vec<u8>) -> (r: Vec<u8>)
        requires
            self.wf(),
        ensures
            r@ =~= stored_value(self@.storage, key@),
    {
        match self.storage.get(key) {
            Some(v) => copy_bytes(v),
            None => Vec::new(),
        }
    }

    /// The length of the stored value; zero for a key never written.
    pub fn storage_load_len(&self, key: &Vec<u8>) -> (r: usize)
        requires
            self.wf(),
        ensures
            r == stored_value(self@.storage, key@).len(),
    {
        let v = self.storage_load(key);
        v.len()
    }

    /// Store a full 32-byte word.
    pub fn storage_store_bytes32(&mut self, key: &Vec<u8>, value: &Vec<u8>) -> (r: Result<
        (),
        TxPanic,
    >)
        requires
            old(self).wf(),
            value@.len() == 32,
        ensures
            final(self).wf(),
            is_reserved_key(key@) ==> r is Err && *final(self) == *old(self),
            r matches Err(p) ==> is_reserved_key(key@) && p.status == STATUS_VM_ERROR
                && p.message@ =~= msg::msg_reserved_key(),
            !is_reserved_key(key@) ==> r is Ok && final(self)@ == (AccountModel {
                storage: old(self)@.storage.insert(key@, value@),
                ..old(self)@
            }),
    {
        self.storage_store(key, value)
    }

    /// Load a 32-byte word: the stored value right-aligned, zero-padded on
    /// the left; a key never written reads as 32 zero bytes.
    pub fn storage_load_bytes32(&self, key: &Vec<u8>) -> (r: Vec<u8>)
        requires
            self.wf(),
            stored_value(self@.storage, key@).len() <= 32,
        ensures
            r@.len() == 32,
            r@ =~= zero_pad_32(stored_value(self@.storage, key@)),
    {
        let value = self.storage_load(key);
        let mut res: Vec<u8> = Vec::new();
        let mut i: usize = 0;
        while i < 32
            invariant
                i <= 32,
                res@ =~= Seq::new(i as nat, |j: int| 0u8),
            decreases 32 - i,
        {
            res.push(0);
            i = i + 1;
        }
        let offset: usize = 32 - value.len();
        let mut j: usize = 0;
        while j < value.len()
            invariant
                j <= value@.len(),
                value@.len() <= 32,
                offset == 32 - value@.len(),
                res@.len() == 32,
                forall|k: int| 0 <= k < offset ==> res@[k] == 0,
                forall|k: int| offset + j <= k < 32 ==> res@[k] == 0,
                forall|k: int| 0 <= k < j ==> res@[offset + k] == value@[k],
            decreases value.len() - j,
        {
            res[offset + j] = value[j];
            j = j + 1;
        }
        proof {
            assert(r_matches_pad(res@, value@));
            assert(res@ =~= zero_pad_32(value@));
        }
        res
    }

    /// Store an unsigned arbitrary-precision number: its canonical
    /// big-endian bytes, empty for zero.
    pub fn storage_store_big_uint(&mut self, key: &Vec<u8>, value: &BigUintValue) -> (r: Result<
        (),
        TxPanic,
    >)
        requires
            old(self).wf(),
            value.wf(),
        ensures
            final(self).wf(),
            is_reserved_key(key@) ==> r is Err && *final(self) == *old(self),
            r matches Err(p) ==> is_reserved_key(key@) && p.status == STATUS_VM_ERROR
                && p.message@ =~= msg::msg_reserved_key(),
            !is_reserved_key(key@) ==> r is Ok && final(self)@ == (AccountModel {
                storage: old(self)@.storage.insert(key@, value.bytes@),
                ..old(self)@
            }) && be_val(final(self)@.storage[key@]) == value@,
    {
        let bytes = value.to_bytes_be();
        self.storage_store(key, &bytes)
    }

    /// Load an unsigned arbitrary-precision number from its big-endian
    /// bytes; a key never written reads as zero.
    pub fn storage_load_big_uint(&self, key: &Vec<u8>) -> (r: BigUintValue)
        requires
            self.wf(),
        ensures
            r.wf(),
            r@ == be_val(stored_value(self@.storage, key@)),
    {
        let value = self.storage_load(key);
        BigUintValue::from_bytes_be(&value)
    }

    /// Store a signed arbitrary-precision number: its two's complement
    /// big-endian bytes.
    pub fn storage_store_big_int(&mut self, key: &Vec<u8>, value: &BigIntValue) -> (r: Result<
        (),
        TxPanic,
    >)
        requires
            old(self).wf(),
        ensures
            final(self).wf(),
            is_reserved_key(key@) ==> r is Err && *final(self) == *old(self),
            r matches Err(p) ==> is_reserved_key(key@) && p.status == STATUS_VM_ERROR
                && p.message@ =~= msg::msg_reserved_key(),
            !is_reserved_key(key@) ==> r is Ok && final(self)@ == (AccountModel {
                storage: old(self)@.storage.insert(key@, value.bytes@),
                ..old(self)@
            }) && signed_be_val(final(self)@.storage[key@]) == value@,
    {
        let bytes = value.to_signed_bytes_be();
        self.storage_store(key, &bytes)
    }

    /// Load a signed arbitrary-precision number; a key never written reads
    /// as zero.
    pub fn storage_load_big_int(&self, key: &Vec<u8>) -> (r: BigIntValue)
        requires
            self.wf(),
        ensures
            r@ == signed_be_val(stored_value(self@.storage, key@)),
    {
        let value = self.storage_load(key);
        BigIntValue::from_signed_bytes_be(&value)
    }

    /// Store a 64-bit signed number in the signed encoding.
    pub fn storage_store_i64(&mut self, key: &Vec<u8>, value: i64) -> (r: Result<(), TxPanic>)
        requires
            old(self).wf(),
        ensures
            final(self).wf(),
            is_reserved_key(key@) ==> r is Err && *final(self) == *old(self),
            r matches Err(p) ==> is_reserved_key(key@) && p.status == STATUS_VM_ERROR
                && p.message@ =~= msg::msg_reserved_key(),
            !is_reserved_key(key@) ==> r is Ok && final(self)@ == (AccountModel {
                storage: old(self)@.storage.insert(key@, final(self)@.storage[key@]),
                ..old(self)@
            }) && signed_be_val(final(self)@.storage[key@]) == value as int,
    {
        let bi = BigIntValue::from_i64(value);
        self.storage_store_big_int(key, &bi)
    }

    /// Load a 64-bit signed number, if the stored value fits.
    pub fn storage_load_i64(&self, key: &Vec<u8>) -> (r: Option<i64>)
        requires
            self.wf(),
        ensures
            r is Some <==> i64::MIN as int <= signed_be_val(stored_value(self@.storage, key@))
                <= i64::MAX as int,
            r matches Some(v) ==> v as int == signed_be_val(stored_value(self@.storage, key@)),
    {
        let bi = self.storage_load_big_int(key);
        bi.to_i64()
    }

    /// The secondary-token balance under (identifier, nonce); zero when the
    /// ledger has no such entry.
    pub fn esdt_balance(&self, token: &Vec<u8>, nonce: u64) -> (r: BigUintValue)
        requires
            self.wf(),
        ensures
            r.wf(),
            r@ == esdt_balance_of(self@.esdt, esdt_key_seq(token@, nonce)),
    {
        let key = esdt_key(token, nonce);
        match self.esdt.get(&key) {
            Some(v) => {
                proof {
                    assert(esdt_values_wf(self.esdt));
                    assert((|val: BigUintValue| val.wf())(*v));
                }
                v.dup()
            },
            None => BigUintValue::zero(),
        }
    }

    /// Set the secondary-token balance under (identifier, nonce).
    pub fn esdt_set_balance(&mut self, token: &Vec<u8>, nonce: u64, value: BigUintValue)
        requires
            old(self).wf(),
            value.wf(),
        ensures
            final(self).wf(),
            final(self)@ == (AccountModel {
                esdt: old(self)@.esdt.insert(esdt_key_seq(token@, nonce), value@),
                ..old(self)@
            }),
    {
        let key = esdt_key(token, nonce);
        proof {
            assert(old(self).esdt.all_values(|v: BigUintValue| v.wf()) && (|v: BigUintValue|
                v.wf())(value));
        }
        self.esdt.insert(key, value);
        proof {
            assert(esdt_values_wf(final(self).esdt));
        }
    }
}

/// The fixed-width word law: a key never written reads as 32 zero bytes,
/// and a stored value of at most 32 bytes reads back right-aligned with
/// zero left-padding — byte-identical when it is exactly 32 bytes long.
pub proof fn lemma_bytes32_padding(storage: Map<Seq<u8>, Seq<u8>>, key: Seq<u8>)
    requires
        stored_value(storage, key).len() <= 32,
    ensures
        !storage.contains_key(key) ==> zero_pad_32(stored_value(storage, key)) =~= Seq::new(
            32,
            |i: int| 0u8,
        ),
        ({
            let v = stored_value(storage, key);
            &&& zero_pad_32(v).len() == 32
            &&& forall|i: int| 0 <= i < 32 - v.len() ==> zero_pad_32(v)[i] == 0
            &&& forall|i: int| 0 <= i < v.len() ==> zero_pad_32(v)[32 - v.len() + i] == v[i]
            &&& v.len() == 32 ==> zero_pad_32(v) =~= v
        }),
{
}

/// Glue for the padding proof of `storage_load_bytes32`.
spec fn r_matches_pad(r: Seq<u8>, v: Seq<u8>) -> bool {
    r.len() == 32 && v.len() <= 32 && (forall|k: int| 0 <= k < 32 - v.len() ==> r[k] == 0) && (
    forall|k: int| 0 <= k < v.len() ==> r[32 - v.len() + k] == v[k])
}

/// The exec form of `esdt_key_seq`.
fn esdt_key(token: &Vec<u8>, nonce: u64) -> (r: Vec<u8>)
    ensures
        r@ =~= esdt_key_seq(token@, nonce),
{
    let token_len: u64 = token.len() as u64;
    let mut r = u64_to_be_bytes(token_len);
    proof {
        assert(r@ =~= nat_be(token@.len(), 8));
    }
    let ghost pre = r@;
    let mut j: usize = 0;
    while j < token.len()
        invariant
            j <= token@.len(),
            r@ =~= pre + token@.subrange(0, j as int),
        decreases token.len() - j,
    {
        r.push(token[j]);
        j = j + 1;
    }
    let nonce_bytes = u64_to_be_bytes(nonce);
    let ghost pre2 = r@;
    let mut k: usize = 0;
    while k < 8
        invariant
            k <= 8,
            nonce_bytes@.len() == 8,
            r@ =~= pre2 + nonce_bytes@.subrange(0, k as int),
        decreases 8 - k,
    {
        r.push(nonce_bytes[k]);
        k = k + 1;
    }
    proof {
        assert(r@ =~= esdt_key_seq(token@, nonce));
    }
    r
}

/// Deep copy of a byte-valued map.
fn dup_byte_map(m: &KvMap<Vec<u8>>) -> (r: KvMap<Vec<u8>>)
    requires
        m.wf(),
    ensures
        r.wf(),
        r@ =~= m@,
{
    let mut entries: Vec<KvEntry<Vec<u8>>> = Vec::new();
    let mut i: usize = 0;
    while i < m.entries.len()
        invariant
            i <= m.entries@.len(),
            entries@.len() == i,
            forall|j: int|
                0 <= j < i ==> entries@[j].key@ == m.entries@[j].key@ && (
                #[trigger] entries@[j]).value@ == m.entries@[j].value@,
        decreases m.entries.len() - i,
    {
        entries.push(
            KvEntry { key: copy_bytes(&m.entries[i].key), value: copy_bytes(&m.entries[i].value) },
        );
        i = i + 1;
    }
    proof {
        lemma_entries_map_congruence(entries@, m.entries@);
    }
    KvMap { entries }
}

/// Deep copy of a token ledger; canonical balances stay canonical.
fn dup_value_map(m: &KvMap<BigUintValue>) -> (r: KvMap<BigUintValue>)
    requires
        m.wf(),
    ensures
        r.wf(),
        r@ =~= m@,
        esdt_values_wf(*m) ==> esdt_values_wf(r),
{
    let mut entries: Vec<KvEntry<BigUintValue>> = Vec::new();
    let mut i: usize = 0;
    while i < m.entries.len()
        invariant
            i <= m.entries@.len(),
            entries@.len() == i,
            forall|j: int|
                0 <= j < i ==> entries@[j].key@ == m.entries@[j].key@ && (
                #[trigger] entries@[j]).value@ == m.entries@[j].value@,
            forall|j: int|
                0 <= j < i ==> ((#[trigger] entries@[j]).value.wf() <==> m.entries@[j].value.wf()),
        decreases m.entries.len() - i,
    {
        entries.push(
            KvEntry { key: copy_bytes(&m.entries[i].key), value: m.entries[i].value.dup() },
        );
        i = i + 1;
    }
    proof {
        lemma_entries_map_congruence(entries@, m.entries@);
        let r = KvMap { entries };
        if esdt_values_wf(*m) {
            assert forall|j: int| 0 <= j < entries@.len() implies (|v: BigUintValue| v.wf())(
                (#[trigger] entries@[j]).value,
            ) by {
                assert((|v: BigUintValue| v.wf())(m.entries@[j].value));
            }
        }
    }
    KvMap { entries }
}

} // verus!
