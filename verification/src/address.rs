//! Fixed 32-byte account addresses.
//!
//! A contract account is distinguished from a user account purely by the
//! shape of its address: the first 8 bytes are zero.

use vstd::prelude::*;

use crate::bytes::{copy_bytes, nat_be, u64_to_be_bytes};

verus! {

/// The length of every address, in bytes.
pub open spec fn address_len() -> nat {
    32
}

/// The number of leading zero bytes that mark a contract address.
pub open spec fn sc_address_leading_zeros() -> nat {
    8
}

/// Does the byte string have the shape of a contract address?
pub open spec fn is_sc_address(s: Seq<u8>) -> bool {
    s.len() == address_len() && forall|i: int| 0 <= i < sc_address_leading_zeros() ==> s[i] == 0
}

/// A fixed-length account address.
pub struct VMAddress {
    pub bytes: Vec<u8>,
}

impl View for VMAddress {
    type V = Seq<u8>;

    open spec fn view(&self) -> Seq<u8> {
        self.bytes@
    }
}

impl VMAddress {
    pub open spec fn wf(&self) -> bool {
        self.bytes@.len() == address_len()
    }

    /// The all-zero address, used as the emitter of system logs.
    pub fn zero() -> (r: VMAddress)
        ensures
            r.wf(),
            r@ =~= Seq::new(address_len(), |i: int| 0u8),
            is_sc_address(r@),
    {
        let mut v: Vec<u8> = Vec::new();
        let mut i: usize = 0;
        while i < 32
            invariant
                i <= 32,
                v@ =~= Seq::new(i as nat, |j: int| 0u8),
            decreases 32 - i,
        {
            v.push(0);
            i = i + 1;
        }
        VMAddress { bytes: v }
    }

    /// An address from its 32 bytes.
    pub fn from_bytes(b: &Vec<u8>) -> (r: VMAddress)
        requires
            b@.len() == address_len(),
        ensures
            r.wf(),
            r@ =~= b@,
    {
        VMAddress { bytes: copy_bytes(b) }
    }

    /// A copy of the address.
    pub fn dup(&self) -> (r: VMAddress)
        ensures
            r@ =~= self@,
            self.wf() ==> r.wf(),
    {
        VMAddress { bytes: copy_bytes(&self.bytes) }
    }

    /// The address bytes as a plain vector (log topics hold these).
    pub fn to_vec(&self) -> (r: Vec<u8>)
        ensures
            r@ =~= self@,
    {
        copy_bytes(&self.bytes)
    }

    /// The pure shape predicate that separates contract addresses from
    /// user addresses.
    pub fn is_smart_contract_address(&self) -> (r: bool)
        ensures
            r == is_sc_address(self@),
    {
        if self.bytes.len() != 32 {
            return false;
        }
        let mut i: usize = 0;
        while i < 8
            invariant
                i <= 8,
                self.bytes@.len() == 32,
                forall|j: int| 0 <= j < i ==> self.bytes@[j] == 0,
            decreases 8 - i,
        {
            if self.bytes[i] != 0 {
                return false;
            }
            i = i + 1;
        }
        true
    }

    /// Byte equality of two addresses.
    pub fn matches(&self, other: &VMAddress) -> (r: bool)
        ensures
            r == (self@ =~= other@),
    {
        self.bytes == other.bytes
    }
}

/// The address a deploy by `creator` with creator nonce `nonce` is given:
/// the contract marker bytes, the middle of the creator's address, and the
/// nonce in big-endian — a pure function of cache-visible state.
pub open spec fn new_address_seq(creator: Seq<u8>, nonce: u64) -> Seq<u8> {
    Seq::new(sc_address_leading_zeros(), |i: int| 0u8) + creator.subrange(8, 24) + nat_be(
        nonce as nat,
        8,
    )
}

/// Derive the deploy address.
pub fn derive_new_address(creator: &VMAddress, nonce: u64) -> (r: VMAddress)
    requires
        creator.wf(),
    ensures
        r.wf(),
        r@ =~= new_address_seq(creator@, nonce),
        is_sc_address(r@),
{
    let mut v: Vec<u8> = Vec::new();
    let mut i: usize = 0;
    while i < 8
        invariant
            i <= 8,
            v@ =~= Seq::new(i as nat, |j: int| 0u8),
        decreases 8 - i,
    {
        v.push(0);
        i = i + 1;
    }
    let mut i: usize = 8;
    while i < 24
        invariant
            8 <= i <= 24,
            creator.bytes@.len() == 32,
            v@.len() == i,
            v@.subrange(0, 8) =~= Seq::new(8, |j: int| 0u8),
            v@.subrange(8, i as int) =~= creator.bytes@.subrange(8, i as int),
        decreases 24 - i,
    {
        v.push(creator.bytes[i]);
        i = i + 1;
    }
    let mut nb = u64_to_be_bytes(nonce);
    let mut k: usize = 0;
    let ghost v24 = v@;
    while k < 8
        invariant
            k <= 8,
            nb@.len() == 8,
            v@ =~= v24 + nb@.subrange(0, k as int),
        decreases 8 - k,
    {
        v.push(nb[k]);
        k = k + 1;
    }
    proof {
        crate::bytes::lemma_nat_be_len(nonce as nat, 8);
        assert(v@ =~= new_address_seq(creator@, nonce));
        assert forall|i: int| 0 <= i < sc_address_leading_zeros() implies v@[i] == 0 by {
            assert(v@.subrange(0, 8)[i] == v@[i]);
        }
    }
    VMAddress { bytes: v }
}

/// Deploy addresses of one creator at different nonces never collide.
///
/// Two deploys by the same creator see sequentially increasing nonces, so
/// the addresses the engine hands out are pairwise distinct.
pub proof fn lemma_new_address_injective_in_nonce(creator: Seq<u8>, n1: u64, n2: u64)
    requires
        creator.len() == address_len(),
        n1 != n2,
    ensures
        new_address_seq(creator, n1) != new_address_seq(creator, n2),
{
    let a1 = new_address_seq(creator, n1);
    let a2 = new_address_seq(creator, n2);
    crate::bytes::lemma_nat_be_len(n1 as nat, 8);
    crate::bytes::lemma_nat_be_len(n2 as nat, 8);
    assert(pow256_64() == 0x1_0000_0000_0000_0000) by {
        reveal_with_fuel(crate::bytes::pow256, 9);
    }
    crate::bytes::lemma_nat_be_val(n1 as nat, 8);
    crate::bytes::lemma_nat_be_val(n2 as nat, 8);
    if a1 == a2 {
        assert(a1.subrange(24, 32) =~= nat_be(n1 as nat, 8));
        assert(a2.subrange(24, 32) =~= nat_be(n2 as nat, 8));
        assert(crate::bytes::be_val(nat_be(n1 as nat, 8)) == crate::bytes::be_val(
            nat_be(n2 as nat, 8),
        ));
        assert(false);
    }
}

/// 256^8, named so the proof above can reveal it once.
pub open spec fn pow256_64() -> nat {
    crate::bytes::pow256(8)
}

} // verus!
