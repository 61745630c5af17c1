//! A keyed table kept as a vector of entries with distinct keys, viewed as
//! a map from key views to values; insertion order is kept.

use vstd::prelude::*;
use crate::text::str_eq;

verus! {

/// Keys compared by their views.
pub trait RegistryKey: View + Sized {
    fn key_eq(&self, other: &Self) -> (r: bool)
        ensures
            r == (self@ == other@),
    ;

    fn key_clone(&self) -> (r: Self)
        ensures
            r@ == self@,
    ;
}

impl RegistryKey for String {
    fn key_eq(&self, other: &Self) -> (r: bool) {
        str_eq(self.as_str(), other.as_str())
    }

    fn key_clone(&self) -> (r: Self) {
        self.clone()
    }
}

impl RegistryKey for u64 {
    fn key_eq(&self, other: &Self) -> (r: bool) {
        *self == *other
    }

    fn key_clone(&self) -> (r: Self) {
        *self
    }
}

/// Entries with distinct keys.
pub struct Registry<K, V> {
    entries: Vec<(K, V)>,
}

/// Some entry of `s` has a key whose view is `k`.
pub open spec fn has_key<K: View, V>(s: Seq<(K, V)>, k: K::V) -> bool {
    exists|i: int| 0 <= i < s.len() && (#[trigger] s[i]).0@ == k
}

/// The value of the entry of `s` whose key views as `k`.
pub open spec fn value_of<K: View, V>(s: Seq<(K, V)>, k: K::V) -> V {
    s[choose|i: int| 0 <= i < s.len() && (#[trigger] s[i]).0@ == k].1
}

/// The map that a sequence of entries with distinct keys stands for.
pub open spec fn entries_map<K: View, V>(s: Seq<(K, V)>) -> Map<K::V, V> {
    Map::new(|k: K::V| has_key(s, k), |k: K::V| value_of(s, k))
}

/// No two entries of `s` have keys with the same view.
pub open spec fn distinct_keys<K: View, V>(s: Seq<(K, V)>) -> bool {
    forall|i: int, j: int|
        0 <= i < s.len() && 0 <= j < s.len() && i != j ==> (#[trigger] s[i]).0@ != (#[trigger] s[j]).0@
}

/// In a sequence with distinct keys, the entry at `i` gives the value of its key.
pub proof fn lemma_value_at<K: View, V>(s: Seq<(K, V)>, i: int)
    requires
        distinct_keys(s),
        0 <= i < s.len(),
    ensures
        has_key(s, s[i].0@),
        value_of(s, s[i].0@) == s[i].1,
        entries_map(s).contains_key(s[i].0@),
        entries_map(s)[s[i].0@] == s[i].1,
{
    let k = s[i].0@;
    assert(has_key(s, k));
    let j = choose|j: int| 0 <= j < s.len() && (#[trigger] s[j]).0@ == k;
    assert(i == j);
}

impl<K: RegistryKey, V> View for Registry<K, V> {
    type V = Map<K::V, V>;

    closed spec fn view(&self) -> Map<K::V, V> {
        entries_map(self.entries@)
    }
}

impl<K: RegistryKey, V> Registry<K, V> {
    /// The entries, in insertion order.
    pub closed spec fn entries(&self) -> Seq<(K, V)> {
        self.entries@
    }

    /// The keys are distinct.
    pub closed spec fn wf(&self) -> bool {
        distinct_keys(self.entries@)
    }

    /// The view is the map of the entries.
    pub proof fn lemma_view(&self)
        requires
            self.wf(),
        ensures
            self@ == entries_map(self.entries()),
            distinct_keys(self.entries()),
    {
    }

    pub fn new() -> (r: Self)
        ensures
            r.wf(),
            r@ == Map::<K::V, V>::empty(),
            r.entries() == Seq::<(K, V)>::empty(),
    {
        let r = Registry { entries: Vec::new() };
        assert(r@ =~= Map::<K::V, V>::empty());
        r
    }

    pub fn len(&self) -> (r: usize)
        requires
            self.wf(),
        ensures
            r == self@.len(),
            r == self.entries().len(),
    {
        proof {
            lemma_len_of_entries(self.entries@);
        }
        self.entries.len()
    }

    /// The position of the entry whose key views as `k`'s.
    pub fn find(&self, k: &K) -> (r: Option<usize>)
        requires
            self.wf(),
        ensures
            match r {
                Some(i) => i < self.entries().len() && self.entries()[i as int].0@ == k@,
                None => !self@.contains_key(k@),
            },
            r is Some <==> self@.contains_key(k@),
    {
        let mut i: usize = 0;
        while i < self.entries.len()
            invariant
                i <= self.entries@.len(),
                forall|j: int| 0 <= j < i ==> (#[trigger] self.entries@[j]).0@ != k@,
            decreases self.entries@.len() - i,
        {
            if self.entries[i].0.key_eq(k) {
                assert(has_key(self.entries@, k@));
                return Some(i);
            }
            i = i + 1;
        }
        None
    }

    pub fn contains_key(&self, k: &K) -> (r: bool)
        requires
            self.wf(),
        ensures
            r == self@.contains_key(k@),
    {
        self.find(k).is_some()
    }

    pub fn get(&self, k: &K) -> (r: Option<&V>)
        requires
            self.wf(),
        ensures
            r is Some <==> self@.contains_key(k@),
            r matches Some(v) ==> *v == self@[k@],
    {
        match self.find(k) {
            Some(i) => {
                proof {
                    lemma_value_at(self.entries@, i as int);
                }
                Some(&self.entries[i].1)
            },
            None => None,
        }
    }

    /// Sets the value of `k`; an entry already under `k` keeps its position.
    /// Returns the value it replaced.
    pub fn insert(&mut self, k: K, v: V) -> (r: Option<V>)
        requires
            old(self).wf(),
        ensures
            final(self).wf(),
            final(self)@ == old(self)@.insert(k@, v),
            r is Some <==> old(self)@.contains_key(k@),
            r matches Some(x) ==> x == old(self)@[k@],
            !old(self)@.contains_key(k@) ==> final(self).entries() == old(self).entries().push((k, v)),
    {
        let ghost kv = k@;
        match self.find(&k) {
            Some(i) => {
                proof {
                    lemma_value_at(self.entries@, i as int);
                }
                let ghost s0 = self.entries@;
                let old_entry = self.entries.remove(i);
                self.entries.insert(i, (k, v));
                proof {
                    let s = self.entries@;
                    assert(s =~= s0.update(i as int, s[i as int]));
                    assert(distinct_keys(s)) by {
                        assert forall|a: int, b: int|
                            0 <= a < s.len() && 0 <= b < s.len() && a != b implies (#[trigger] s[a]).0@
                            != (#[trigger] s[b]).0@ by {
                            if a != i && b != i {
                                assert(s[a] == s0[a] && s[b] == s0[b]);
                            } else if a == i {
                                assert(s0[b] == s[b]);
                                assert(s0[a].0@ == kv);
                            } else {
                                assert(s0[a] == s[a]);
                                assert(s0[b].0@ == kv);
                            }
                        }
                    }
                    assert(self@ =~= old(self)@.insert(kv, v)) by {
                        assert forall|key: K::V| #[trigger] self@.contains_key(key) <==> old(self)@.insert(kv, v).contains_key(key) by {
                            if has_key(s, key) {
                                let j = choose|j: int| 0 <= j < s.len() && (#[trigger] s[j]).0@ == key;
                                if j != i {
                                    assert(s0[j] == s[j]);
                                }
                            }
                            if has_key(s0, key) {
                                let j = choose|j: int| 0 <= j < s0.len() && (#[trigger] s0[j]).0@ == key;
                                if j != i {
                                    assert(s0[j] == s[j]);
                                } else {
                                    assert(s[i as int].0@ == kv);
                                }
                            }
                        }
                        assert forall|key: K::V| #[trigger] self@.contains_key(key) implies self@[key]
                            == old(self)@.insert(kv, v)[key] by {
                            let j = choose|j: int| 0 <= j < s.len() && (#[trigger] s[j]).0@ == key;
                            lemma_value_at(s, j);
                            if j != i {
                                assert(s0[j] == s[j]);
                                lemma_value_at(s0, j);
                            }
                        }
                    }
                }
                Some(old_entry.1)
            },
            None => {
                let ghost s0 = self.entries@;
                self.entries.push((k, v));
                proof {
                    let s = self.entries@;
                    assert(distinct_keys(s)) by {
                        assert forall|a: int, b: int|
                            0 <= a < s.len() && 0 <= b < s.len() && a != b implies (#[trigger] s[a]).0@
                            != (#[trigger] s[b]).0@ by {
                            if a < s0.len() && b < s0.len() {
                                assert(s[a] == s0[a] && s[b] == s0[b]);
                            } else if a < s0.len() {
                                assert(s[a] == s0[a]);
                                assert(!has_key(s0, kv));
                                assert(s0[a].0@ != kv);
                            } else {
                                assert(s[b] == s0[b]);
                                assert(s0[b].0@ != kv);
                            }
                        }
                    }
                    assert(self@ =~= old(self)@.insert(kv, v)) by {
                        assert forall|key: K::V| #[trigger] self@.contains_key(key) <==> old(self)@.insert(kv, v).contains_key(key) by {
                            if has_key(s, key) {
                                let j = choose|j: int| 0 <= j < s.len() && (#[trigger] s[j]).0@ == key;
                                if j < s0.len() {
                                    assert(s0[j] == s[j]);
                                }
                            }
                            if has_key(s0, key) {
                                let j = choose|j: int| 0 <= j < s0.len() && (#[trigger] s0[j]).0@ == key;
                                assert(s0[j] == s[j]);
                            }
                            if key == kv {
                                assert(s[s0.len() as int].0@ == kv);
                            }
                        }
                        assert forall|key: K::V| #[trigger] self@.contains_key(key) implies self@[key]
                            == old(self)@.insert(kv, v)[key] by {
                            let j = choose|j: int| 0 <= j < s.len() && (#[trigger] s[j]).0@ == key;
                            lemma_value_at(s, j);
                            if j < s0.len() {
                                assert(s0[j] == s[j]);
                                lemma_value_at(s0, j);
                            }
                        }
                    }
                }
                None
            },
        }
    }

    /// Removes the entry of `k`, keeping the order of the others, and returns
    /// its value.
    pub fn remove(&mut self, k: &K) -> (r: Option<V>)
        requires
            old(self).wf(),
        ensures
            final(self).wf(),
            final(self)@ == old(self)@.remove(k@),
            r is Some <==> old(self)@.contains_key(k@),
            r matches Some(x) ==> x == old(self)@[k@],
    {
        match self.find(k) {
            Some(i) => {
                proof {
                    lemma_value_at(self.entries@, i as int);
                }
                let ghost s0 = self.entries@;
                let e = self.entries.remove(i);
                proof {
                    let s = self.entries@;
                    assert(distinct_keys(s)) by {
                        assert forall|a: int, b: int|
                            0 <= a < s.len() && 0 <= b < s.len() && a != b implies (#[trigger] s[a]).0@
                            != (#[trigger] s[b]).0@ by {
                            let a0 = if a < i { a } else { a + 1 };
                            let b0 = if b < i { b } else { b + 1 };
                            assert(s[a] == s0[a0] && s[b] == s0[b0]);
                        }
                    }
                    assert(self@ =~= old(self)@.remove(k@)) by {
                        assert forall|key: K::V| #[trigger] self@.contains_key(key) <==> old(self)@.remove(k@).contains_key(key) by {
                            if has_key(s, key) {
                                let j = choose|j: int| 0 <= j < s.len() && (#[trigger] s[j]).0@ == key;
                                let j0 = if j < i { j } else { j + 1 };
                                assert(s[j] == s0[j0]);
                            }
                            if has_key(s0, key) && key != k@ {
                                let j = choose|j: int| 0 <= j < s0.len() && (#[trigger] s0[j]).0@ == key;
                                if j < i {
                                    assert(s[j] == s0[j]);
                                } else {
                                    assert(j != i);
                                    assert(s[j - 1] == s0[j]);
                                }
                            }
                        }
                        assert forall|key: K::V| #[trigger] self@.contains_key(key) implies self@[key]
                            == old(self)@.remove(k@)[key] by {
                            let j = choose|j: int| 0 <= j < s.len() && (#[trigger] s[j]).0@ == key;
                            lemma_value_at(s, j);
                            let j0 = if j < i { j } else { j + 1 };
                            assert(s[j] == s0[j0]);
                            lemma_value_at(s0, j0);
                        }
                    }
                }
                Some(e.1)
            },
            None => {
                assert(self@ =~= old(self)@.remove(k@));
                None
            },
        }
    }

    /// A copy whose keys view as these keys, in the same order, and whose
    /// values are clones of these values.
    pub fn clone_registry(&self) -> (r: Self) where V: Clone
        requires
            self.wf(),
        ensures
            r.wf(),
            r.entries().len() == self.entries().len(),
            forall|i: int| 0 <= i < self.entries().len() ==> (#[trigger] r.entries()[i]).0@ == self.entries()[i].0@
                && cloned(self.entries()[i].1, r.entries()[i].1),
            r@.dom() == self@.dom(),
    {
        let mut out: Vec<(K, V)> = Vec::new();
        let mut i: usize = 0;
        while i < self.entries.len()
            invariant
                i <= self.entries@.len(),
                out@.len() == i,
                distinct_keys(self.entries@),
                forall|j: int| 0 <= j < i ==> (#[trigger] out@[j]).0@ == self.entries@[j].0@ && cloned(
                    self.entries@[j].1,
                    out@[j].1,
                ),
            decreases self.entries@.len() - i,
        {
            let k = self.entries[i].0.key_clone();
            let v = self.entries[i].1.clone();
            out.push((k, v));
            i = i + 1;
        }
        let r = Registry { entries: out };
        proof {
            let s = self.entries@;
            let t = r.entries@;
            assert(distinct_keys(t)) by {
                assert forall|a: int, b: int| 0 <= a < t.len() && 0 <= b < t.len() && a != b implies (#[trigger] t[a]).0@
                    != (#[trigger] t[b]).0@ by {
                    assert(s[a].0@ != s[b].0@);
                }
            }
            assert(r@.dom() =~= self@.dom()) by {
                assert forall|k: K::V| r@.dom().contains(k) <==> self@.dom().contains(k) by {
                    if has_key(t, k) {
                        let j = choose|j: int| 0 <= j < t.len() && (#[trigger] t[j]).0@ == k;
                        assert(s[j].0@ == k);
                    }
                    if has_key(s, k) {
                        let j = choose|j: int| 0 <= j < s.len() && (#[trigger] s[j]).0@ == k;
                        assert(t[j].0@ == k);
                    }
                }
            }
        }
        r
    }

    /// The entries, in insertion order.
    pub fn into_entries(self) -> (r: Vec<(K, V)>)
        requires
            self.wf(),
        ensures
            r@ == self.entries(),
            distinct_keys(r@),
            entries_map(r@) == self@,
    {
        self.entries
    }

    /// The entry at position `i`.
    pub fn entry_at(&self, i: usize) -> (r: &(K, V))
        requires
            i < self.entries().len(),
        ensures
            *r == self.entries()[i as int],
    {
        &self.entries[i]
    }
}

/// The number of keys of a sequence of entries with distinct keys is its length.
pub proof fn lemma_len_of_entries<K: View, V>(s: Seq<(K, V)>)
    requires
        distinct_keys(s),
    ensures
        entries_map(s).dom().len() == s.len(),
        entries_map(s).dom().finite(),
    decreases s.len(),
{
    if s.len() == 0 {
        assert(entries_map(s).dom() =~= Set::<K::V>::empty());
    } else {
        let t = s.drop_last();
        assert(distinct_keys(t));
        lemma_len_of_entries(t);
        let m = entries_map(t);
        let last = s.last().0@;
        assert(!has_key(t, last)) by {
            if has_key(t, last) {
                let j = choose|j: int| 0 <= j < t.len() && (#[trigger] t[j]).0@ == last;
                assert(s[j].0@ == s[s.len() - 1].0@);
            }
        }
        assert(entries_map(s).dom() =~= m.dom().insert(last)) by {
            assert forall|k: K::V| entries_map(s).dom().contains(k) <==> m.dom().insert(last).contains(k) by {
                if has_key(s, k) {
                    let j = choose|j: int| 0 <= j < s.len() && (#[trigger] s[j]).0@ == k;
                    if j < s.len() - 1 {
                        assert(t[j] == s[j]);
                    }
                }
                if has_key(t, k) {
                    let j = choose|j: int| 0 <= j < t.len() && (#[trigger] t[j]).0@ == k;
                    assert(s[j] == t[j]);
                }
                if k == last {
                    assert(s[s.len() - 1].0@ == last);
                }
            }
        }
    }
}

} // verus!
