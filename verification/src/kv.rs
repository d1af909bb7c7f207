//! A byte-keyed map, held as a list of entries with pairwise distinct keys.
//!
//! Its view is the `Map` from key byte strings to the views of the stored
//! values. Contract storage and the account stores are instances of it.

use vstd::prelude::*;

verus! {

pub struct KvEntry<V> {
    pub key: Vec<u8>,
    pub value: V,
}

/// The map an entry list denotes; later entries would win, but well-formed
/// lists have distinct keys.
pub open spec fn entries_map<V: View>(s: Seq<KvEntry<V>>) -> Map<Seq<u8>, V::V>
    decreases s.len(),
{
    if s.len() == 0 {
        Map::empty()
    } else {
        entries_map(s.drop_last()).insert(s.last().key@, s.last().value@)
    }
}

/// Pairwise distinct keys.
pub open spec fn distinct_keys<V: View>(s: Seq<KvEntry<V>>) -> bool {
    forall|i: int, j: int| 0 <= i < j < s.len() ==> s[i].key@ != s[j].key@
}

/// An entry that no later entry shadows gives the map's value at its key.
pub proof fn lemma_entries_map_index<V: View>(s: Seq<KvEntry<V>>, i: int)
    requires
        0 <= i < s.len(),
        forall|j: int| i < j < s.len() ==> s[j].key@ != s[i].key@,
    ensures
        entries_map(s).contains_key(s[i].key@),
        entries_map(s)[s[i].key@] == s[i].value@,
    decreases s.len(),
{
    if i < s.len() - 1 {
        lemma_entries_map_index(s.drop_last(), i);
    }
}

/// A key under no entry is not in the map.
pub proof fn lemma_entries_map_absent<V: View>(s: Seq<KvEntry<V>>, k: Seq<u8>)
    requires
        forall|i: int| 0 <= i < s.len() ==> s[i].key@ != k,
    ensures
        !entries_map(s).contains_key(k),
    decreases s.len(),
{
    if s.len() > 0 {
        lemma_entries_map_absent(s.drop_last(), k);
    }
}

/// Replacing the entry at a key rewrites the map at that key alone.
pub proof fn lemma_entries_map_update<V: View>(s: Seq<KvEntry<V>>, i: int, e: KvEntry<V>)
    requires
        0 <= i < s.len(),
        e.key@ == s[i].key@,
        distinct_keys(s),
    ensures
        entries_map(s.update(i, e)) =~= entries_map(s).insert(e.key@, e.value@),
    decreases s.len(),
{
    let t = s.update(i, e);
    if i == s.len() - 1 {
        assert(t.drop_last() =~= s.drop_last());
    } else {
        assert(t.drop_last() =~= s.drop_last().update(i, e));
        assert(t.last() == s.last());
        lemma_entries_map_update(s.drop_last(), i, e);
        assert(s.last().key@ != e.key@);
    }
}

/// The domain of the map is exactly the keys of the entries.
pub proof fn lemma_entries_map_contains<V: View>(s: Seq<KvEntry<V>>, k: Seq<u8>)
    ensures
        entries_map(s).contains_key(k) <==> exists|i: int| 0 <= i < s.len() && s[i].key@ == k,
    decreases s.len(),
{
    if s.len() > 0 {
        lemma_entries_map_contains(s.drop_last(), k);
        if entries_map(s).contains_key(k) {
            if s.last().key@ == k {
                assert(s[s.len() - 1].key@ == k);
            } else {
                let i = choose|i: int| 0 <= i < s.drop_last().len() && s.drop_last()[i].key@ == k;
                assert(s[i].key@ == k);
            }
        }
        if exists|i: int| 0 <= i < s.len() && s[i].key@ == k {
            let i = choose|i: int| 0 <= i < s.len() && s[i].key@ == k;
            if i < s.len() - 1 {
                assert(s.drop_last()[i].key@ == k);
            }
        }
    }
}

/// Entry lists with pointwise equal key and value views denote the same map.
pub proof fn lemma_entries_map_congruence<V: View>(s: Seq<KvEntry<V>>, t: Seq<KvEntry<V>>)
    requires
        s.len() == t.len(),
        forall|i: int|
            0 <= i < s.len() ==> s[i].key@ == t[i].key@ && (#[trigger] s[i]).value@ == (
            #[trigger] t[i]).value@,
    ensures
        entries_map(s) =~= entries_map(t),
    decreases s.len(),
{
    if s.len() > 0 {
        lemma_entries_map_congruence(s.drop_last(), t.drop_last());
    }
}

pub struct KvMap<V> {
    pub entries: Vec<KvEntry<V>>,
}

impl<V: View> View for KvMap<V> {
    type V = Map<Seq<u8>, V::V>;

    open spec fn view(&self) -> Map<Seq<u8>, V::V> {
        entries_map(self.entries@)
    }
}

impl<V: View> KvMap<V> {
    pub open spec fn wf(&self) -> bool {
        distinct_keys(self.entries@)
    }

    /// Every stored value satisfies the predicate.
    pub open spec fn all_values(&self, p: spec_fn(V) -> bool) -> bool {
        forall|i: int| 0 <= i < self.entries@.len() ==> #[trigger] p(self.entries@[i].value)
    }

    pub fn new() -> (r: KvMap<V>)
        ensures
            r@ =~= Map::<Seq<u8>, V::V>::empty(),
            r.wf(),
            r.entries@.len() == 0,
    {
        KvMap { entries: Vec::new() }
    }

    /// The index of the entry under the key, if any.
    fn index_of(&self, key: &Vec<u8>) -> (r: Option<usize>)
        ensures
            r matches Some(i) ==> i < self.entries@.len() && self.entries@[i as int].key@ == key@,
            r is None ==> forall|i: int|
                0 <= i < self.entries@.len() ==> self.entries@[i].key@ != key@,
    {
        let mut i: usize = 0;
        while i < self.entries.len()
            invariant
                i <= self.entries@.len(),
                forall|j: int| 0 <= j < i ==> self.entries@[j].key@ != key@,
            decreases self.entries.len() - i,
        {
            if self.entries[i].key == *key {
                return Some(i);
            }
            i = i + 1;
        }
        None
    }

    pub fn contains_key(&self, key: &Vec<u8>) -> (r: bool)
        ensures
            r == self@.contains_key(key@),
    {
        let idx = self.index_of(key);
        proof {
            lemma_entries_map_contains(self.entries@, key@);
        }
        match idx {
            Some(_) => true,
            None => false,
        }
    }

    /// A reference to the value under the key.
    pub fn get(&self, key: &Vec<u8>) -> (r: Option<&V>)
        requires
            self.wf(),
        ensures
            r matches Some(v) ==> self@.contains_key(key@) && self@[key@] == v@,
            r is None ==> !self@.contains_key(key@),
            r matches Some(v) ==> forall|p: spec_fn(V) -> bool|
                #[trigger] self.all_values(p) ==> p(*v),
    {
        let idx = self.index_of(key);
        match idx {
            Some(i) => {
                proof {
                    lemma_entries_map_index(self.entries@, i as int);
                }
                Some(&self.entries[i].value)
            },
            None => {
                proof {
                    lemma_entries_map_absent(self.entries@, key@);
                }
                None
            },
        }
    }

    /// Bind the key to the value, replacing any previous binding.
    pub fn insert(&mut self, key: Vec<u8>, value: V)
        requires
            old(self).wf(),
        ensures
            final(self)@ =~= old(self)@.insert(key@, value@),
            final(self).wf(),
            forall|p: spec_fn(V) -> bool|
                #[trigger] old(self).all_values(p) && p(value) ==> final(self).all_values(p),
    {
        let idx = self.index_of(&key);
        match idx {
            Some(i) => {
                let ghost s = self.entries@;
                let e = KvEntry { key, value };
                proof {
                    lemma_entries_map_update(s, i as int, e);
                }
                self.entries[i] = e;
            },
            None => {
                let ghost s = self.entries@;
                proof {
                    lemma_entries_map_absent(s, key@);
                }
                self.entries.push(KvEntry { key, value });
                proof {
                    assert(self.entries@.drop_last() =~= s);
                }
            },
        }
    }
}

} // verus!
