//! A keyed persistent store, modelled in memory: an association list with
//! unique keys, viewed as a `Map` from key views to value views.
//!
//! The record-keeping state machines hold their data in these maps and state
//! their contracts over the `Map` view: `insert` overwrites, `remove` drops,
//! and lookups are total.

use vstd::prelude::*;
use vstd::std_specs::cmp::PartialEqSpec;

verus! {

/// The executable `==` on `K` agrees with equality of views: what the scan
/// compares is what the `Map` view is keyed by.
pub open spec fn eq_matches_view<K: View + PartialEq + PartialEqSpec>() -> bool {
    &&& K::obeys_eq_spec()
    &&& forall|a: K, b: K| #[trigger] a.eq_spec(&b) <==> a@ == b@
}

pub proof fn lemma_eq_matches_view_u64()
    ensures
        eq_matches_view::<u64>(),
{
}

pub proof fn lemma_eq_matches_view_pair()
    ensures
        eq_matches_view::<(u64, u64)>(),
{
}

pub proof fn lemma_eq_matches_view_triple()
    ensures
        eq_matches_view::<(u64, u64, u64)>(),
{
}

pub proof fn lemma_eq_matches_view_quad()
    ensures
        eq_matches_view::<(u64, u64, u64, u64)>(),
{
}

pub proof fn lemma_eq_matches_view_bytes()
    ensures
        eq_matches_view::<Vec<u8>>(),
{
    assert forall|a: Vec<u8>, b: Vec<u8>| #[trigger] a.eq_spec(&b) <==> a@ == b@ by {
        if a.eq_spec(&b) {
            assert(a@ =~= b@);
        }
    }
}

/// The map held by an entry list: later entries would win, but the
/// well-formedness invariant keeps keys unique.
pub open spec fn entries_map<K: View, V: View>(s: Seq<(K, V)>) -> Map<K::V, V::V>
    decreases s.len(),
{
    if s.len() == 0 {
        Map::empty()
    } else {
        entries_map(s.drop_last()).insert(s.last().0@, s.last().1@)
    }
}

pub open spec fn unique_keys<K: View, V>(s: Seq<(K, V)>) -> bool {
    forall|i: int, j: int| 0 <= i < j < s.len() ==> s[i].0@ != s[j].0@
}

/// What `entries_map` holds of a unique-key list: a key is present exactly
/// when some entry carries it, and it maps to that entry's value.
pub proof fn lemma_entries_map_props<K: View, V: View>(s: Seq<(K, V)>)
    requires
        unique_keys(s),
    ensures
        forall|k: K::V|
            #[trigger] entries_map(s).contains_key(k) <==> exists|i: int|
                0 <= i < s.len() && s[i].0@ == k,
        forall|i: int|
            0 <= i < s.len() ==> entries_map(s).contains_key(#[trigger] s[i].0@) && entries_map(
                s,
            )[s[i].0@] == s[i].1@,
    decreases s.len(),
{
    if s.len() > 0 {
        let s0 = s.drop_last();
        lemma_entries_map_props(s0);
        assert(entries_map(s) == entries_map(s0).insert(s.last().0@, s.last().1@));
        assert(forall|i: int| 0 <= i < s0.len() ==> s0[i] == s[i]);
        assert forall|k: K::V| #[trigger]
            entries_map(s).contains_key(k) implies exists|i: int|
            0 <= i < s.len() && s[i].0@ == k by {
            if k == s.last().0@ {
                assert(s[s.len() - 1].0@ == k);
            } else {
                assert(entries_map(s0).contains_key(k));
                let i = choose|i: int| 0 <= i < s0.len() && s0[i].0@ == k;
                assert(s[i].0@ == k);
            }
        }
        assert forall|k: K::V| (exists|i: int| 0 <= i < s.len() && s[i].0@ == k) implies #[trigger]
            entries_map(s).contains_key(k) by {
            let i = choose|i: int| 0 <= i < s.len() && s[i].0@ == k;
            if i < s.len() - 1 {
                assert(s0[i].0@ == k);
                assert(entries_map(s0).contains_key(k));
            }
        }
        assert forall|i: int| 0 <= i < s.len() implies entries_map(s).contains_key(
            #[trigger] s[i].0@,
        ) && entries_map(s)[s[i].0@] == s[i].1@ by {
            if i < s.len() - 1 {
                assert(s0[i].0@ == s[i].0@);
                assert(entries_map(s0)[s0[i].0@] == s0[i].1@);
                assert(s[i].0@ != s.last().0@);
            }
        }
    }
}

/// An in-memory keyed store with unique keys, seen as a `Map`.
pub struct KvMap<K, V> {
    entries: Vec<(K, V)>,
}

impl<K: View, V: View> View for KvMap<K, V> {
    type V = Map<<K as View>::V, <V as View>::V>;

    closed spec fn view(&self) -> Map<<K as View>::V, <V as View>::V> {
        entries_map(self.entries@)
    }
}

impl<K: View + PartialEq + PartialEqSpec, V: View> KvMap<K, V> {
    /// Keys are unique; every operation preserves this.
    pub closed spec fn wf(&self) -> bool {
        unique_keys(self.entries@)
    }

    /// The empty store.
    pub fn new() -> (r: Self)
        ensures
            r.wf(),
            r@ == Map::<<K as View>::V, <V as View>::V>::empty(),
    {
        KvMap { entries: Vec::new() }
    }

    /// Position of the entry whose key views as `k@`, if any.
    fn index_of(&self, k: &K) -> (r: Option<usize>)
        requires
            self.wf(),
            eq_matches_view::<K>(),
        ensures
            match r {
                Some(i) => i < self.entries@.len() && self.entries@[i as int].0@ == k@,
                None => forall|i: int| 0 <= i < self.entries@.len() ==> self.entries@[i].0@ != k@,
            },
    {
        let n = self.entries.len();
        let mut i: usize = 0;
        while i < n
            invariant
                i <= n,
                n == self.entries@.len(),
                eq_matches_view::<K>(),
                forall|t: int| 0 <= t < i ==> self.entries@[t].0@ != k@,
            decreases n - i,
        {
            if self.entries[i].0 == *k {
                return Some(i);
            }
            i = i + 1;
        }
        None
    }

    /// Whether a value is stored under `k`.
    pub fn contains_key(&self, k: &K) -> (r: bool)
        requires
            self.wf(),
            eq_matches_view::<K>(),
        ensures
            r == self@.contains_key(k@),
    {
        proof {
            lemma_entries_map_props(self.entries@);
        }
        match self.index_of(k) {
            Some(_) => true,
            None => false,
        }
    }

    /// The value stored under `k`, if any.
    pub fn get(&self, k: &K) -> (r: Option<&V>)
        requires
            self.wf(),
            eq_matches_view::<K>(),
        ensures
            match r {
                Some(v) => self@.contains_key(k@) && v@ == self@[k@],
                None => !self@.contains_key(k@),
            },
    {
        proof {
            lemma_entries_map_props(self.entries@);
        }
        match self.index_of(k) {
            Some(i) => Some(&self.entries[i].1),
            None => None,
        }
    }

    /// Store `val` under `k`, replacing any previous value.
    pub fn insert(&mut self, k: K, val: V)
        requires
            old(self).wf(),
            eq_matches_view::<K>(),
        ensures
            final(self).wf(),
            final(self)@ == old(self)@.insert(k@, val@),
    {
        let ghost s0 = self.entries@;
        match self.index_of(&k) {
            Some(i) => {
                let ghost kv = k@;
                self.entries.set(i, (k, val));
                proof {
                    let s1 = self.entries@;
                    assert(forall|t: int| 0 <= t < s1.len() ==> s1[t].0@ == s0[t].0@);
                    assert(unique_keys(s1));
                    lemma_entries_map_props(s0);
                    lemma_entries_map_props(s1);
                    assert forall|k2: <K as View>::V| #[trigger]
                        entries_map(s1).contains_key(k2) implies entries_map(s0).insert(
                        kv,
                        val@,
                    ).contains_key(k2) by {
                        let t = choose|t: int| 0 <= t < s1.len() && s1[t].0@ == k2;
                        assert(s0[t].0@ == k2);
                    }
                    assert forall|k2: <K as View>::V|
                        entries_map(s0).insert(kv, val@).contains_key(k2) implies #[trigger]
                        entries_map(s1).contains_key(k2) by {
                        if k2 == kv {
                            assert(s1[i as int].0@ == k2);
                        } else {
                            let t = choose|t: int| 0 <= t < s0.len() && s0[t].0@ == k2;
                            assert(s1[t].0@ == k2);
                        }
                    }
                    assert forall|k2: <K as View>::V|
                        entries_map(s1).contains_key(k2) implies entries_map(s1)[k2]
                        == entries_map(s0).insert(kv, val@)[k2] by {
                        if k2 == kv {
                            assert(entries_map(s1)[s1[i as int].0@] == s1[i as int].1@);
                        } else {
                            let t = choose|t: int| 0 <= t < s1.len() && s1[t].0@ == k2;
                            assert(t != i);
                            assert(entries_map(s0)[s0[t].0@] == s0[t].1@);
                        }
                    }
                    assert(entries_map(s1) =~= entries_map(s0).insert(kv, val@));
                }
            },
            None => {
                self.entries.push((k, val));
                proof {
                    let s1 = self.entries@;
                    assert(s1.drop_last() =~= s0);
                    assert(unique_keys(s1));
                }
            },
        }
    }

    /// Drop the value stored under `k`, if any.
    pub fn remove(&mut self, k: &K)
        requires
            old(self).wf(),
            eq_matches_view::<K>(),
        ensures
            final(self).wf(),
            final(self)@ == old(self)@.remove(k@),
    {
        let ghost s0 = self.entries@;
        proof {
            lemma_entries_map_props(s0);
        }
        match self.index_of(k) {
            Some(i) => {
                self.entries.remove(i);
                proof {
                    let s1 = self.entries@;
                    assert(forall|t: int|
                        0 <= t < s1.len() ==> s1[t] == (if t < i {
                            s0[t]
                        } else {
                            s0[t + 1]
                        }));
                    assert(unique_keys(s1));
                    lemma_entries_map_props(s1);
                    assert forall|k2: <K as View>::V| #[trigger]
                        entries_map(s1).contains_key(k2) implies entries_map(s0).remove(
                        k@,
                    ).contains_key(k2) by {
                        let t = choose|t: int| 0 <= t < s1.len() && s1[t].0@ == k2;
                        if t < i {
                            assert(s0[t].0@ == k2);
                        } else {
                            assert(s0[t + 1].0@ == k2);
                        }
                        assert(k2 != k@);
                    }
                    assert forall|k2: <K as View>::V|
                        entries_map(s0).remove(k@).contains_key(k2) implies #[trigger]
                        entries_map(s1).contains_key(k2) by {
                        let t = choose|t: int| 0 <= t < s0.len() && s0[t].0@ == k2;
                        assert(t != i);
                        if t < i {
                            assert(s1[t].0@ == k2);
                        } else {
                            assert(s1[t - 1].0@ == k2);
                        }
                    }
                    assert forall|k2: <K as View>::V|
                        entries_map(s1).contains_key(k2) implies entries_map(s1)[k2]
                        == entries_map(s0).remove(k@)[k2] by {
                        let t = choose|t: int| 0 <= t < s1.len() && s1[t].0@ == k2;
                        assert(entries_map(s1)[s1[t].0@] == s1[t].1@);
                        if t < i {
                            assert(entries_map(s0)[s0[t].0@] == s0[t].1@);
                        } else {
                            assert(entries_map(s0)[s0[t + 1].0@] == s0[t + 1].1@);
                        }
                    }
                    assert(entries_map(s1) =~= entries_map(s0).remove(k@));
                }
            },
            None => {
                proof {
                    assert(!entries_map(s0).contains_key(k@));
                    assert(entries_map(s0) =~= entries_map(s0).remove(k@));
                }
            },
        }
    }
}

} // verus!
