//! A finite map kept as a vector of entries whose keys are pairwise distinct.
use vstd::prelude::*;

use crate::identity::ViewEq;

verus! {

/// No two entries of `s` have keys with the same view.
pub open spec fn keys_distinct<K: View, V>(s: Seq<(K, V)>) -> bool {
    forall|i: int, j: int| 0 <= i < j < s.len() ==> #[trigger] s[i].0@ != #[trigger] s[j].0@
}

/// Whether some entry of `s` has a key with view `k`.
pub open spec fn seq_has<K: View, V>(s: Seq<(K, V)>, k: K::V) -> bool {
    exists|i: int| 0 <= i < s.len() && #[trigger] s[i].0@ == k
}

pub open spec fn seq_position<K: View, V>(s: Seq<(K, V)>, k: K::V) -> int {
    choose|i: int| 0 <= i < s.len() && #[trigger] s[i].0@ == k
}

/// The map that the entries `s` stand for.
pub open spec fn seq_view<K: View, V>(s: Seq<(K, V)>) -> Map<K::V, V> {
    Map::new(|k: K::V| seq_has(s, k), |k: K::V| s[seq_position(s, k)].1)
}

proof fn lemma_position<K: View, V>(s: Seq<(K, V)>, i: int)
    requires
        keys_distinct(s),
        0 <= i < s.len(),
    ensures
        seq_has(s, s[i].0@),
        seq_position(s, s[i].0@) == i,
        seq_view(s).contains_key(s[i].0@),
        seq_view(s)[s[i].0@] == s[i].1,
{
    let k = s[i].0@;
    assert(seq_has(s, k));
    let j = seq_position(s, k);
    if j != i {
        if j < i {
            assert(s[j].0@ != s[i].0@);
        } else {
            assert(s[i].0@ != s[j].0@);
        }
    }
}

proof fn lemma_update_value<K: View, V>(s: Seq<(K, V)>, i: int)
    requires
        keys_distinct(s),
        0 <= i < s.len(),
    ensures
        forall|v: V| #![trigger s.update(i, (s[i].0, v))]
            keys_distinct(s.update(i, (s[i].0, v)))
            && seq_view(s.update(i, (s[i].0, v))) == seq_view(s).insert(s[i].0@, v),
{
    assert forall|v: V| #![trigger s.update(i, (s[i].0, v))]
        keys_distinct(s.update(i, (s[i].0, v)))
        && seq_view(s.update(i, (s[i].0, v))) == seq_view(s).insert(s[i].0@, v) by {
        let t = s.update(i, (s[i].0, v));
        assert(keys_distinct(t)) by {
            assert forall|a: int, b: int| 0 <= a < b < t.len() implies #[trigger] t[a].0@ != #[trigger] t[b].0@ by {
                assert(s[a].0@ != s[b].0@);
            }
        }
        lemma_position(t, i);
        assert forall|k: K::V| #[trigger] seq_has(t, k) == seq_has(s, k) by {
            if seq_has(t, k) {
                let p = seq_position(t, k);
                assert(s[p].0@ == k);
            }
            if seq_has(s, k) {
                let p = seq_position(s, k);
                assert(t[p].0@ == k);
            }
        }
        assert forall|k: K::V| seq_has(s, k) && k != s[i].0@ implies
            #[trigger] seq_view(t)[k] == seq_view(s)[k] by {
            let p = seq_position(s, k);
            lemma_position(s, p);
            lemma_position(t, p);
        }
        assert(seq_view(t) =~= seq_view(s).insert(s[i].0@, v));
    }
}


proof fn lemma_push<K: View, V>(s: Seq<(K, V)>, e: (K, V))
    requires
        keys_distinct(s),
        !seq_has(s, e.0@),
    ensures
        keys_distinct(s.push(e)),
        seq_view(s.push(e)) == seq_view(s).insert(e.0@, e.1),
{
    let t = s.push(e);
    assert(keys_distinct(t)) by {
        assert forall|a: int, b: int| 0 <= a < b < t.len() implies #[trigger] t[a].0@ != #[trigger] t[b].0@ by {
            if b == s.len() {
                assert(t[a] == s[a]);
                if s[a].0@ == e.0@ {
                    assert(seq_has(s, e.0@));
                }
            } else {
                assert(s[a].0@ != s[b].0@);
            }
        }
    }
    lemma_position(t, s.len() as int);
    assert forall|k: K::V| #[trigger] seq_has(t, k) == (seq_has(s, k) || k == e.0@) by {
        if seq_has(t, k) {
            let p = seq_position(t, k);
            if p < s.len() {
                assert(s[p].0@ == k);
            }
        }
        if seq_has(s, k) {
            let p = seq_position(s, k);
            assert(t[p].0@ == k);
        }
    }
    assert forall|k: K::V| seq_has(s, k) && k != e.0@ implies #[trigger] seq_view(t)[k] == seq_view(s)[k] by {
        let p = seq_position(s, k);
        lemma_position(s, p);
        assert(t[p] == s[p]);
        lemma_position(t, p);
    }
    assert(seq_view(t) =~= seq_view(s).insert(e.0@, e.1));
}

proof fn lemma_remove<K: View, V>(s: Seq<(K, V)>, i: int)
    requires
        keys_distinct(s),
        0 <= i < s.len(),
    ensures
        keys_distinct(s.remove(i)),
        seq_view(s.remove(i)) == seq_view(s).remove(s[i].0@),
{
    let t = s.remove(i);
    assert(keys_distinct(t)) by {
        assert forall|a: int, b: int| 0 <= a < b < t.len() implies #[trigger] t[a].0@ != #[trigger] t[b].0@ by {
            let a2 = if a < i { a } else { a + 1 };
            let b2 = if b < i { b } else { b + 1 };
            assert(t[a] == s[a2]);
            assert(t[b] == s[b2]);
            assert(s[a2].0@ != s[b2].0@);
        }
    }
    lemma_position(s, i);
    assert forall|k: K::V| #[trigger] seq_has(t, k) == (seq_has(s, k) && k != s[i].0@) by {
        if seq_has(t, k) {
            let p = seq_position(t, k);
            let p2 = if p < i { p } else { p + 1 };
            assert(s[p2].0@ == k);
            assert(s[p2].0@ != s[i].0@) by {
                if p2 < i { assert(s[p2].0@ != s[i].0@); } else { assert(s[i].0@ != s[p2].0@); }
            }
        }
        if seq_has(s, k) && k != s[i].0@ {
            let p = seq_position(s, k);
            let p2 = if p < i { p } else { p - 1 };
            assert(t[p2].0@ == k);
        }
    }
    assert forall|k: K::V| seq_has(t, k) implies #[trigger] seq_view(t)[k] == seq_view(s)[k] by {
        let p = seq_position(t, k);
        let p2 = if p < i { p } else { p + 1 };
        lemma_position(t, p);
        assert(t[p] == s[p2]);
        lemma_position(s, p2);
    }
    assert(seq_view(t) =~= seq_view(s).remove(s[i].0@));
}

proof fn lemma_len<K: View, V>(s: Seq<(K, V)>)
    requires
        keys_distinct(s),
    ensures
        seq_view(s).dom().finite(),
        seq_view(s).len() == s.len(),
{
    let ks = s.map_values(|e: (K, V)| e.0@);
    assert(ks.no_duplicates()) by {
        assert forall|a: int, b: int| 0 <= a < ks.len() && 0 <= b < ks.len() && a != b implies ks[a] != ks[b] by {
            if a < b { assert(s[a].0@ != s[b].0@); } else { assert(s[b].0@ != s[a].0@); }
        }
    }
    ks.unique_seq_to_set();
    assert forall|k: K::V| #[trigger] ks.to_set().contains(k) == seq_has(s, k) by {
        if ks.to_set().contains(k) {
            assert(ks.contains(k));
            let p = choose|p: int| 0 <= p < ks.len() && ks[p] == k;
            assert(s[p].0@ == k);
        }
        if seq_has(s, k) {
            let p = seq_position(s, k);
            assert(ks[p] == k);
        }
    }
    assert(seq_view(s).dom() =~= ks.to_set());
    vstd::seq_lib::seq_to_set_is_finite(ks);
}

/// Entries `(key, value)`, no two of which have keys with the same view.
pub struct KeyedEntries<K, V> {
    entries: Vec<(K, V)>,
}

impl<K: ViewEq, V> KeyedEntries<K, V> {
    /// No two entries have keys with the same view.
    pub closed spec fn wf(self) -> bool {
        keys_distinct(self.entries@)
    }

    /// The map from key views to values.
    pub closed spec fn view(self) -> Map<K::V, V> {
        seq_view(self.entries@)
    }

    pub fn new() -> (r: Self)
        ensures
            r.wf(),
            r.view() == Map::<K::V, V>::empty(),
    {
        let r = KeyedEntries { entries: Vec::new() };
        assert(r.view() =~= Map::<K::V, V>::empty());
        r
    }

    fn find(&self, k: &K) -> (r: Option<usize>)
        requires
            self.wf(),
        ensures
            match r {
                Some(i) => i < self.entries@.len() && self.entries@[i as int].0@ == k@,
                None => !self.view().contains_key(k@),
            },
    {
        let mut i: usize = 0;
        while i < self.entries.len()
            invariant
                i <= self.entries@.len(),
                forall|j: int| 0 <= j < i ==> #[trigger] self.entries@[j].0@ != k@,
            decreases self.entries@.len() - i,
        {
            if self.entries[i].0.view_eq(k) {
                return Some(i);
            }
            i = i + 1;
        }
        None
    }

    pub fn contains_key(&self, k: &K) -> (r: bool)
        requires
            self.wf(),
        ensures
            r == self.view().contains_key(k@),
    {
        match self.find(k) {
            Some(i) => {
                proof { lemma_position(self.entries@, i as int); }
                true
            },
            None => false,
        }
    }

    pub fn get(&self, k: &K) -> (r: Option<&V>)
        requires
            self.wf(),
        ensures
            match r {
                Some(v) => self.view().contains_key(k@) && *v == self.view()[k@],
                None => !self.view().contains_key(k@),
            },
    {
        match self.find(k) {
            Some(i) => {
                proof { lemma_position(self.entries@, i as int); }
                Some(&self.entries[i].1)
            },
            None => None,
        }
    }

    pub fn get_mut(&mut self, k: &K) -> (r: Option<&mut V>)
        requires
            old(self).wf(),
        ensures
            final(self).wf(),
            match r {
                Some(v) => old(self).view().contains_key(k@) && *v == old(self).view()[k@]
                    && final(self).view() == old(self).view().insert(k@, *final(v)),
                None => !old(self).view().contains_key(k@) && final(self).view() == old(self).view(),
            },
    {
        match self.find(k) {
            Some(i) => {
                proof {
                    lemma_position(self.entries@, i as int);
                    lemma_update_value(self.entries@, i as int);
                }
                Some(&mut self.entries[i].1)
            },
            None => None,
        }
    }

    pub fn len(&self) -> (r: usize)
        requires
            self.wf(),
        ensures
            r == self.view().len(),
            self.view().dom().finite(),
    {
        proof { lemma_len(self.entries@); }
        self.entries.len()
    }

    /// Sets the value under `k`, keeping the key already there if any; gives back the old value.
    pub fn insert(&mut self, k: K, v: V) -> (r: Option<V>)
        requires
            old(self).wf(),
        ensures
            final(self).wf(),
            final(self).view() == old(self).view().insert(k@, v),
            r == (if old(self).view().contains_key(k@) { Some(old(self).view()[k@]) } else { None::<V> }),
    {
        match self.find(&k) {
            Some(i) => {
                proof {
                    lemma_position(self.entries@, i as int);
                    lemma_update_value(self.entries@, i as int);
                }
                let (key, old_value) = self.entries.remove(i);
                proof {
                    assert(self.entries@.insert(i as int, (key, v)) =~= old(self).entries@.update(i as int, (key, v)));
                }
                self.entries.insert(i, (key, v));
                Some(old_value)
            },
            None => {
                proof { lemma_push(self.entries@, (k, v)); }
                self.entries.push((k, v));
                None
            },
        }
    }

    fn remove_at(&mut self, i: usize) -> (r: (K, V))
        requires
            old(self).wf(),
            i < old(self).entries@.len(),
        ensures
            final(self).wf(),
            r == old(self).entries@[i as int],
            final(self).entries@.len() == old(self).entries@.len() - 1,
            old(self).view().contains_key(r.0@),
            old(self).view()[r.0@] == r.1,
            final(self).view() == old(self).view().remove(r.0@),
    {
        proof {
            lemma_position(self.entries@, i as int);
            lemma_remove(self.entries@, i as int);
        }
        self.entries.remove(i)
    }

    /// Removes the entry under `k`; gives back its value.
    pub fn remove(&mut self, k: &K) -> (r: Option<V>)
        requires
            old(self).wf(),
        ensures
            final(self).wf(),
            final(self).view() == old(self).view().remove(k@),
            r == (if old(self).view().contains_key(k@) { Some(old(self).view()[k@]) } else { None::<V> }),
    {
        match self.find(k) {
            Some(i) => {
                let (_key, value) = self.remove_at(i);
                Some(value)
            },
            None => {
                assert(self.view() =~= old(self).view().remove(k@));
                None
            },
        }
    }

    /// The entries, each key beside its value.
    pub fn iter(&self) -> (r: Vec<(&K, &V)>)
        requires
            self.wf(),
        ensures
            r@.len() == self.view().len(),
            forall|i: int, j: int| 0 <= i < j < r@.len() ==> #[trigger] r@[i].0@ != #[trigger] r@[j].0@,
            forall|i: int| 0 <= i < r@.len() ==> self.view().contains_key(#[trigger] r@[i].0@)
                && self.view()[r@[i].0@] == *r@[i].1,
            forall|k: K::V| #[trigger] self.view().contains_key(k) ==> exists|i: int| 0 <= i < r@.len() && #[trigger] r@[i].0@ == k,
    {
        proof { lemma_len(self.entries@); }
        let mut r: Vec<(&K, &V)> = Vec::new();
        let mut i: usize = 0;
        while i < self.entries.len()
            invariant
                self.wf(),
                i <= self.entries@.len(),
                r@.len() == i,
                forall|j: int| 0 <= j < i ==> (#[trigger] r@[j]).0 == &self.entries@[j].0 && r@[j].1 == &self.entries@[j].1,
            decreases self.entries@.len() - i,
        {
            r.push((&self.entries[i].0, &self.entries[i].1));
            i = i + 1;
        }
        proof {
            assert forall|a: int, b: int| 0 <= a < b < r@.len() implies #[trigger] r@[a].0@ != #[trigger] r@[b].0@ by {
                assert(self.entries@[a].0@ != self.entries@[b].0@);
            }
            assert forall|a: int| 0 <= a < r@.len() implies self.view().contains_key(#[trigger] r@[a].0@)
                && self.view()[r@[a].0@] == *r@[a].1 by {
                lemma_position(self.entries@, a);
            }
            assert forall|k: K::V| #[trigger] self.view().contains_key(k) implies exists|a: int| 0 <= a < r@.len() && #[trigger] r@[a].0@ == k by {
                let p = seq_position(self.entries@, k);
                assert(r@[p].0@ == k);
            }
        }
        r
    }
}

/// The entries of `m` whose value does not have the view `v`.
pub open spec fn without_value<KV, V: View>(m: Map<KV, V>, v: V::V) -> Map<KV, V> {
    m.restrict(Set::new(|k: KV| m.contains_key(k) && m[k]@ != v))
}

impl<K: ViewEq, V: ViewEq> KeyedEntries<K, V> {
    fn find_value(&self, v: &V) -> (r: Option<usize>)
        requires
            self.wf(),
        ensures
            match r {
                Some(i) => i < self.entries@.len() && self.entries@[i as int].1@ == v@,
                None => forall|k: K::V| #[trigger] self.view().contains_key(k) ==> self.view()[k]@ != v@,
            },
    {
        let mut i: usize = 0;
        while i < self.entries.len()
            invariant
                i <= self.entries@.len(),
                forall|j: int| 0 <= j < i ==> #[trigger] self.entries@[j].1@ != v@,
            decreases self.entries@.len() - i,
        {
            if self.entries[i].1.view_eq(v) {
                return Some(i);
            }
            i = i + 1;
        }
        proof {
            assert forall|k: K::V| #[trigger] self.view().contains_key(k) implies self.view()[k]@ != v@ by {
                let p = seq_position(self.entries@, k);
                lemma_position(self.entries@, p);
            }
        }
        None
    }

    /// Removes every entry whose value has the view of `v`; gives back their keys.
    pub fn extract_with_value(&mut self, v: &V) -> (r: Vec<K>)
        requires
            old(self).wf(),
        ensures
            final(self).wf(),
            final(self).view() == without_value(old(self).view(), v@),
            forall|i: int, j: int| 0 <= i < j < r@.len() ==> #[trigger] r@[i]@ != #[trigger] r@[j]@,
            forall|i: int| 0 <= i < r@.len() ==> old(self).view().contains_key(#[trigger] r@[i]@)
                && old(self).view()[r@[i]@]@ == v@,
            forall|k: K::V| old(self).view().contains_key(k) && #[trigger] old(self).view()[k]@ == v@
                ==> exists|i: int| 0 <= i < r@.len() && #[trigger] r@[i]@ == k,
    {
        let ghost m0 = self.view();
        let mut out: Vec<K> = Vec::new();
        loop
            invariant_except_break
                self.wf(),
                forall|k: K::V| #[trigger] self.view().contains_key(k) ==> m0.contains_key(k) && self.view()[k] == m0[k],
                forall|k: K::V| m0.contains_key(k) && !self.view().contains_key(k)
                    ==> exists|i: int| 0 <= i < out@.len() && #[trigger] out@[i]@ == k,
                forall|i: int| 0 <= i < out@.len() ==> m0.contains_key(#[trigger] out@[i]@)
                    && m0[out@[i]@]@ == v@ && !self.view().contains_key(out@[i]@),
                forall|i: int, j: int| 0 <= i < j < out@.len() ==> #[trigger] out@[i]@ != #[trigger] out@[j]@,
            ensures
                self.wf(),
                forall|k: K::V| #[trigger] self.view().contains_key(k) ==> m0.contains_key(k) && self.view()[k] == m0[k] && self.view()[k]@ != v@,
                forall|k: K::V| m0.contains_key(k) && !self.view().contains_key(k)
                    ==> exists|i: int| 0 <= i < out@.len() && #[trigger] out@[i]@ == k,
                forall|i: int| 0 <= i < out@.len() ==> m0.contains_key(#[trigger] out@[i]@)
                    && m0[out@[i]@]@ == v@ && !self.view().contains_key(out@[i]@),
                forall|i: int, j: int| 0 <= i < j < out@.len() ==> #[trigger] out@[i]@ != #[trigger] out@[j]@,
            decreases self.entries@.len(),
        {
            match self.find_value(v) {
                Some(i) => {
                    let ghost before = self.view();
                    let ghost out_before = out@;
                    let (k, _value) = self.remove_at(i);
                    out.push(k);
                    proof {
                        assert forall|a: int| 0 <= a < out@.len() implies m0.contains_key(#[trigger] out@[a]@)
                            && m0[out@[a]@]@ == v@ && !self.view().contains_key(out@[a]@) by {
                            if a < out_before.len() {
                                assert(out@[a] == out_before[a]);
                            }
                        }
                        assert forall|a: int, b: int| 0 <= a < b < out@.len() implies #[trigger] out@[a]@ != #[trigger] out@[b]@ by {
                            assert(out@[a] == out_before[a]);
                            if b < out_before.len() {
                                assert(out@[b] == out_before[b]);
                            } else {
                                assert(!before.contains_key(out_before[a]@));
                            }
                        }
                        assert forall|kk: K::V| m0.contains_key(kk) && !self.view().contains_key(kk)
                            implies exists|a: int| 0 <= a < out@.len() && #[trigger] out@[a]@ == kk by {
                            if before.contains_key(kk) {
                                assert(out@[out_before.len() as int]@ == kk);
                            } else {
                                let a = choose|a: int| 0 <= a < out_before.len() && #[trigger] out_before[a]@ == kk;
                                assert(out@[a] == out_before[a]);
                            }
                        }
                    }
                },
                None => {
                    break;
                },
            }
        }
        proof {
            assert(self.view() =~= without_value(m0, v@));
        }
        out
    }
}

} // verus!
