//! Byte-string arithmetic model.
//!
//! Balances and storage values are big-endian byte strings. `be_val` gives
//! the unsigned integer a byte string denotes, `signed_be_val` the signed
//! (two's complement) reading. The canonical unsigned encoding has no
//! leading zero byte; zero is the empty string.

use vstd::prelude::*;

verus! {

/// 256^n.
pub open spec fn pow256(n: nat) -> nat
    decreases n,
{
    if n == 0 {
        1
    } else {
        256 * pow256((n - 1) as nat)
    }
}

/// The unsigned integer denoted by a big-endian byte string.
pub open spec fn be_val(s: Seq<u8>) -> nat
    decreases s.len(),
{
    if s.len() == 0 {
        0
    } else {
        (be_val(s.drop_last()) * 256 + s.last()) as nat
    }
}

/// The signed (two's complement) integer denoted by a big-endian byte string.
pub open spec fn signed_be_val(s: Seq<u8>) -> int {
    if s.len() == 0 {
        0
    } else if s[0] < 128 {
        be_val(s) as int
    } else {
        be_val(s) - pow256(s.len())
    }
}

/// The canonical unsigned encoding: no leading zero byte.
pub open spec fn is_canonical(s: Seq<u8>) -> bool {
    s.len() == 0 || s[0] != 0
}

/// Splitting off the leading byte: its place value is 256^(len-1).
pub proof fn lemma_be_val_front(s: Seq<u8>)
    requires
        s.len() > 0,
    ensures
        be_val(s) == s[0] * pow256((s.len() - 1) as nat) + be_val(s.drop_first()),
    decreases s.len(),
{
    if s.len() == 1 {
        assert(s.drop_last() =~= Seq::<u8>::empty());
        assert(s.drop_first() =~= Seq::<u8>::empty());
        assert(be_val(s) == s[0] * 1 + 0) by (nonlinear_arith)
            requires
                be_val(s) == be_val(s.drop_last()) * 256 + s.last(),
                be_val(s.drop_last()) == 0,
                s.last() == s[0],
        ;
    } else {
        let d = s.drop_last();
        lemma_be_val_front(d);
        assert(s.drop_first().drop_last() =~= d.drop_first());
        assert(s.drop_first().last() == s.last());
        let p = pow256((s.len() - 2) as nat);
        assert(be_val(s.drop_first()) == be_val(d.drop_first()) * 256 + s.last());
        assert((s[0] * p + be_val(d.drop_first())) * 256 + s.last() == s[0] * (256 * p) + (be_val(
            d.drop_first(),
        ) * 256 + s.last())) by (nonlinear_arith);
        assert(be_val(s) == be_val(d) * 256 + s.last());
        assert(be_val(d) * 256 == (s[0] * p + be_val(d.drop_first())) * 256) by (nonlinear_arith)
            requires
                be_val(d) == s[0] * p + be_val(d.drop_first()),
        ;
    }
}

/// A leading zero byte does not change the denoted value.
pub proof fn lemma_be_val_drop_leading_zero(s: Seq<u8>)
    requires
        s.len() > 0,
        s[0] == 0,
    ensures
        be_val(s) == be_val(s.drop_first()),
{
    lemma_be_val_front(s);
}

/// The byte string with its leading zero bytes removed.
pub open spec fn spec_trim(s: Seq<u8>) -> Seq<u8>
    decreases s.len(),
{
    if s.len() == 0 {
        s
    } else if s[0] != 0 {
        s
    } else {
        spec_trim(s.drop_first())
    }
}

/// Trimming preserves the denoted value and yields the canonical form;
/// a canonical string is left unchanged.
pub proof fn lemma_spec_trim(s: Seq<u8>)
    ensures
        be_val(spec_trim(s)) == be_val(s),
        is_canonical(spec_trim(s)),
        is_canonical(s) ==> spec_trim(s) =~= s,
    decreases s.len(),
{
    if s.len() > 0 && s[0] == 0 {
        lemma_be_val_drop_leading_zero(s);
        lemma_spec_trim(s.drop_first());
    }
}

/// A nonempty canonical byte string denotes a positive value.
pub proof fn lemma_canonical_pos(s: Seq<u8>)
    requires
        is_canonical(s),
        s.len() > 0,
    ensures
        be_val(s) >= pow256((s.len() - 1) as nat) >= 1,
{
    lemma_be_val_front(s);
    lemma_pow256_pos((s.len() - 1) as nat);
    assert(s[0] * pow256((s.len() - 1) as nat) >= 1 * pow256((s.len() - 1) as nat))
        by (nonlinear_arith)
        requires
            s[0] >= 1,
            pow256((s.len() - 1) as nat) >= 1,
    ;
}

/// Two canonical byte strings denoting the same value are equal.
pub proof fn lemma_canonical_unique(a: Seq<u8>, b: Seq<u8>)
    requires
        is_canonical(a),
        is_canonical(b),
        be_val(a) == be_val(b),
    ensures
        a =~= b,
    decreases a.len(),
{
    if a.len() == 0 {
        if b.len() > 0 {
            lemma_canonical_pos(b);
        }
    } else if b.len() == 0 {
        lemma_canonical_pos(a);
    } else {
        let x = be_val(a.drop_last());
        let y = be_val(b.drop_last());
        assert(a.last() == b.last() && x == y) by (nonlinear_arith)
            requires
                x * 256 + a.last() == y * 256 + b.last(),
                a.last() < 256,
                b.last() < 256,
        ;
        if a.len() > 1 && b.len() > 1 {
            assert(a.drop_last()[0] == a[0]);
            assert(b.drop_last()[0] == b[0]);
            lemma_canonical_unique(a.drop_last(), b.drop_last());
            assert(a =~= a.drop_last().push(a.last()));
            assert(b =~= b.drop_last().push(b.last()));
        } else if a.len() == 1 && b.len() == 1 {
            assert(a =~= b);
        } else {
            let (lo, hi) = if a.len() == 1 {
                (a, b)
            } else {
                (b, a)
            };
            assert(hi.drop_last()[0] == hi[0]);
            lemma_canonical_pos(hi.drop_last());
            assert(lo.drop_last() =~= Seq::<u8>::empty());
            assert(false);
        }
    }
}

pub proof fn lemma_pow256_pos(n: nat)
    ensures
        pow256(n) >= 1,
    decreases n,
{
    if n > 0 {
        lemma_pow256_pos((n - 1) as nat);
    }
}

/// Can the leading byte of a signed encoding be dropped without changing
/// the denoted value? A zero byte before a non-negative tail, or a 0xff
/// byte before a negative tail, is redundant.
pub open spec fn signed_droppable(s: Seq<u8>) -> bool {
    s.len() > 0 && ((s[0] == 0 && (s.len() == 1 || s[1] < 128)) || (s[0] == 255 && s.len() > 1
        && s[1] >= 128))
}

/// The minimal signed (two's complement) encoding of the same value.
pub open spec fn spec_signed_trim(s: Seq<u8>) -> Seq<u8>
    decreases s.len(),
{
    if signed_droppable(s) {
        spec_signed_trim(s.drop_first())
    } else {
        s
    }
}

/// Dropping a redundant leading byte keeps the signed value.
proof fn lemma_signed_drop(s: Seq<u8>)
    requires
        signed_droppable(s),
    ensures
        signed_be_val(s) == signed_be_val(s.drop_first()),
{
    let d = s.drop_first();
    lemma_be_val_front(s);
    if s[0] == 0 {
        if d.len() == 0 {
            assert(be_val(s) == 0 * pow256(0) + 0);
        }
    } else {
        let p = pow256((s.len() - 1) as nat);
        assert(pow256(s.len()) == 256 * p);
        assert(be_val(s) == 255 * p + be_val(d));
        assert(signed_be_val(s) == be_val(d) - p);
        assert(d[0] >= 128);
        assert(signed_be_val(d) == be_val(d) - pow256(d.len()));
    }
}

/// Trimming keeps the signed value.
pub proof fn lemma_spec_signed_trim(s: Seq<u8>)
    ensures
        signed_be_val(spec_signed_trim(s)) == signed_be_val(s),
        !signed_droppable(spec_signed_trim(s)),
    decreases s.len(),
{
    if signed_droppable(s) {
        lemma_signed_drop(s);
        lemma_spec_signed_trim(s.drop_first());
    }
}

/// Strip redundant leading bytes of a signed encoding, yielding the
/// minimal two's complement form of the same value.
pub fn signed_trim(v: &Vec<u8>) -> (r: Vec<u8>)
    ensures
        r@ =~= spec_signed_trim(v@),
        signed_be_val(r@) == signed_be_val(v@),
{
    let mut start: usize = 0;
    proof {
        assert(v@.skip(0) =~= v@);
    }
    loop
        invariant
            start <= v@.len(),
            spec_signed_trim(v@) =~= spec_signed_trim(v@.skip(start as int)),
        ensures
            start <= v@.len(),
            spec_signed_trim(v@) =~= spec_signed_trim(v@.skip(start as int)),
            !signed_droppable(v@.skip(start as int)),
        decreases v.len() - start,
    {
        let droppable: bool = if start >= v.len() {
            false
        } else if v[start] == 0 {
            start + 1 == v.len() || v[start + 1] < 128
        } else if v[start] == 255 {
            start + 1 < v.len() && v[start + 1] >= 128
        } else {
            false
        };
        proof {
            assert(droppable == signed_droppable(v@.skip(start as int)));
        }
        if !droppable {
            break ;
        }
        proof {
            assert(v@.skip(start as int).drop_first() =~= v@.skip(start + 1));
        }
        start = start + 1;
    }
    let mut r: Vec<u8> = Vec::new();
    let mut i: usize = start;
    while i < v.len()
        invariant
            start <= i <= v@.len(),
            r@ =~= v@.subrange(start as int, i as int),
        decreases v.len() - i,
    {
        r.push(v[i]);
        i = i + 1;
    }
    proof {
        assert(r@ =~= v@.skip(start as int));
        assert(spec_signed_trim(v@.skip(start as int)) =~= v@.skip(start as int));
        lemma_spec_signed_trim(v@);
    }
    r
}

/// The `len`-byte big-endian encoding of `n % 256^len`.
pub open spec fn nat_be(n: nat, len: nat) -> Seq<u8>
    decreases len,
{
    if len == 0 {
        Seq::empty()
    } else {
        nat_be(n / 256, (len - 1) as nat).push((n % 256) as u8)
    }
}

pub proof fn lemma_nat_be_len(n: nat, len: nat)
    ensures
        nat_be(n, len).len() == len,
    decreases len,
{
    if len > 0 {
        lemma_nat_be_len(n / 256, (len - 1) as nat);
    }
}

/// The fixed-width encoding denotes the value back, when it fits.
pub proof fn lemma_nat_be_val(n: nat, len: nat)
    requires
        n < pow256(len),
    ensures
        be_val(nat_be(n, len)) == n,
    decreases len,
{
    if len == 0 {
    } else {
        assert(n / 256 < pow256((len - 1) as nat)) by (nonlinear_arith)
            requires
                n < 256 * pow256((len - 1) as nat),
        ;
        lemma_nat_be_val(n / 256, (len - 1) as nat);
        let s = nat_be(n, len);
        lemma_nat_be_len(n / 256, (len - 1) as nat);
        assert(s.drop_last() =~= nat_be(n / 256, (len - 1) as nat));
        assert(s.last() == (n % 256) as u8);
        assert((n / 256) * 256 + n % 256 == n) by (nonlinear_arith);
    }
}

/// Exec copy of a byte string.
pub fn copy_bytes(src: &Vec<u8>) -> (r: Vec<u8>)
    ensures
        r@ =~= src@,
{
    let mut r: Vec<u8> = Vec::new();
    let mut i: usize = 0;
    while i < src.len()
        invariant
            i <= src.len(),
            r@ =~= src@.subrange(0, i as int),
        decreases src.len() - i,
    {
        r.push(src[i]);
        i = i + 1;
    }
    r
}

/// The list of byte strings a `Vec<Vec<u8>>` holds, as a sequence of sequences.
pub open spec fn list_view(v: Seq<Vec<u8>>) -> Seq<Seq<u8>> {
    Seq::new(v.len(), |i: int| v[i]@)
}

/// Exec copy of a list of byte strings.
pub fn copy_bytes_list(src: &Vec<Vec<u8>>) -> (r: Vec<Vec<u8>>)
    ensures
        list_view(r@) =~= list_view(src@),
{
    let mut r: Vec<Vec<u8>> = Vec::new();
    let mut i: usize = 0;
    while i < src.len()
        invariant
            i <= src.len(),
            r@.len() == i,
            forall|j: int| 0 <= j < i ==> r@[j]@ =~= src@[j]@,
        decreases src.len() - i,
    {
        r.push(copy_bytes(&src[i]));
        i = i + 1;
    }
    r
}

/// Append a copy of `src` to `dst`.
pub fn append_bytes(dst: &mut Vec<u8>, src: &Vec<u8>)
    ensures
        final(dst)@ =~= old(dst)@ + src@,
{
    let ghost pre = dst@;
    let mut i: usize = 0;
    while i < src.len()
        invariant
            i <= src@.len(),
            dst@ =~= pre + src@.subrange(0, i as int),
        decreases src.len() - i,
    {
        dst.push(src[i]);
        i = i + 1;
    }
    proof {
        assert(dst@ =~= pre + src@);
    }
}

/// Does `s` start with `prefix`?
pub fn bytes_start_with(s: &Vec<u8>, prefix: &Vec<u8>) -> (r: bool)
    ensures
        r == (prefix@.len() <= s@.len() && s@.subrange(0, prefix@.len() as int) =~= prefix@),
{
    if prefix.len() > s.len() {
        return false;
    }
    let mut i: usize = 0;
    while i < prefix.len()
        invariant
            i <= prefix@.len() <= s@.len(),
            forall|j: int| 0 <= j < i ==> s@[j] == prefix@[j],
        decreases prefix.len() - i,
    {
        if s[i] != prefix[i] {
            return false;
        }
        i = i + 1;
    }
    assert(s@.subrange(0, prefix@.len() as int) =~= prefix@);
    true
}

/// Strip leading zero bytes, yielding the canonical encoding of the same value.
pub fn trim_leading_zeros(v: &Vec<u8>) -> (r: Vec<u8>)
    ensures
        r@ =~= spec_trim(v@),
        be_val(r@) == be_val(v@),
        is_canonical(r@),
{
    let mut start: usize = 0;
    proof {
        assert(v@.skip(0) =~= v@);
    }
    while start < v.len() && v[start as usize] == 0
        invariant
            start <= v@.len(),
            forall|j: int| 0 <= j < start ==> v@[j] == 0,
            spec_trim(v@) =~= spec_trim(v@.skip(start as int)),
        decreases v.len() - start,
    {
        proof {
            assert(v@.skip(start as int).drop_first() =~= v@.skip(start + 1));
        }
        start = start + 1;
    }
    let mut r: Vec<u8> = Vec::new();
    let mut i: usize = start;
    while i < v.len()
        invariant
            start <= i <= v@.len(),
            r@ =~= v@.subrange(start as int, i as int),
        decreases v.len() - i,
    {
        r.push(v[i]);
        i = i + 1;
    }
    proof {
        assert(r@ =~= v@.skip(start as int));
        if start < v@.len() {
            assert(v@.skip(start as int)[0] == v@[start as int]);
        }
        lemma_spec_trim(v@);
    }
    r
}

/// The 8-byte big-endian encoding of a 64-bit value.
pub fn u64_to_be_bytes(n: u64) -> (r: Vec<u8>)
    ensures
        r@ =~= nat_be(n as nat, 8),
        r@.len() == 8,
        be_val(r@) == n,
{
    let r = nat_to_be_rec(n, 8);
    proof {
        lemma_nat_be_len(n as nat, 8);
        assert(pow256(8) == 0x1_0000_0000_0000_0000) by {
            reveal_with_fuel(pow256, 9);
        }
        lemma_nat_be_val(n as nat, 8);
    }
    r
}

fn nat_to_be_rec(n: u64, len: usize) -> (r: Vec<u8>)
    ensures
        r@ =~= nat_be(n as nat, len as nat),
        r@.len() == len,
    decreases len,
{
    if len == 0 {
        Vec::new()
    } else {
        let mut r = nat_to_be_rec(n / 256, len - 1);
        r.push((n % 256) as u8);
        r
    }
}

} // verus!
