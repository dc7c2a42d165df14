//! A small map from identifiers (byte strings) to values, as a list of entries with
//! distinct keys. The peer keeps its routing tables in it.
use vstd::prelude::*;
use crate::remote::id_bytes::{bytes_equal, copy_all};

verus! {

/// Whether some entry of `s` has the key `k`.
pub open spec fn has_key<V>(s: Seq<(Vec<u8>, V)>, k: Seq<u8>) -> bool {
    exists|i: int| 0 <= i < s.len() && #[trigger] s[i].0@ == k
}

/// Whether the entries of `s` have distinct keys.
pub open spec fn unique_keys<V>(s: Seq<(Vec<u8>, V)>) -> bool {
    forall|i: int, j: int|
        0 <= i < s.len() && 0 <= j < s.len() && i != j ==> #[trigger] s[i].0@ != #[trigger] s[j].0@
}

/// The index of the entry with key `k`.
pub open spec fn index_of_key<V>(s: Seq<(Vec<u8>, V)>, k: Seq<u8>) -> int {
    choose|i: int| 0 <= i < s.len() && #[trigger] s[i].0@ == k
}

/// Two entries with equal keys and values.
pub open spec fn same_entry<V>(a: (Vec<u8>, V), b: (Vec<u8>, V)) -> bool {
    a.0@ == b.0@ && a.1 == b.1
}

/// The map that the entries of `s` stand for.
pub open spec fn table_map<V>(s: Seq<(Vec<u8>, V)>) -> Map<Seq<u8>, V> {
    Map::new(|k: Seq<u8>| has_key(s, k), |k: Seq<u8>| s[index_of_key(s, k)].1)
}

/// With distinct keys, the map gives every entry's value at its key.
pub proof fn lemma_table_map_at<V>(s: Seq<(Vec<u8>, V)>, i: int)
    requires
        unique_keys(s),
        0 <= i < s.len(),
    ensures
        table_map(s).dom().contains(s[i].0@),
        table_map(s)[s[i].0@] == s[i].1,
        index_of_key(s, s[i].0@) == i,
{
    assert(has_key(s, s[i].0@));
    let j = index_of_key(s, s[i].0@);
    assert(0 <= j < s.len() && s[j].0@ == s[i].0@);
}

/// A map from identifiers to values.
pub struct ByteTable<V> {
    entries: Vec<(Vec<u8>, V)>,
}

impl<V> View for ByteTable<V> {
    type V = Map<Seq<u8>, V>;

    closed spec fn view(&self) -> Map<Seq<u8>, V> {
        table_map(self.entries@)
    }
}

impl<V> ByteTable<V> {
    /// The entries have distinct keys.
    pub closed spec fn wf(&self) -> bool {
        unique_keys(self.entries@)
    }

    /// The number of entries.
    pub closed spec fn spec_len(&self) -> nat {
        self.entries@.len()
    }

    /// The key of the entry at `i`.
    pub closed spec fn key_at(&self, i: int) -> Seq<u8> {
        self.entries@[i].0@
    }

    /// The value of the entry at `i`.
    pub closed spec fn value_at(&self, i: int) -> V {
        self.entries@[i].1
    }

    /// Every entry is in the map, under its key.
    pub proof fn lemma_entry(&self, i: int)
        requires
            self.wf(),
            0 <= i < self.spec_len(),
        ensures
            self@.dom().contains(self.key_at(i)),
            self@[self.key_at(i)] == self.value_at(i),
    {
        lemma_table_map_at(self.entries@, i);
    }

    /// An empty table.
    pub fn new() -> (res: Self)
        ensures
            res.wf(),
            res@ == Map::<Seq<u8>, V>::empty(),
            res.spec_len() == 0,
    {
        let res = ByteTable { entries: Vec::new() };
        assert(res@ =~= Map::<Seq<u8>, V>::empty());
        res
    }

    /// The number of entries.
    pub fn len(&self) -> (res: usize)
        ensures
            res == self.spec_len(),
    {
        self.entries.len()
    }

    /// The index of the entry with key `key`, if there is one.
    pub fn find(&self, key: &[u8]) -> (res: Option<usize>)
        requires
            self.wf(),
        ensures
            res matches Some(i) ==> i < self.spec_len() && self.key_at(i as int) == key@,
            res is None <==> !self@.dom().contains(key@),
    {
        let mut i: usize = 0;
        while i < self.entries.len()
            invariant
                i <= self.entries@.len(),
                forall|j: int| 0 <= j < i ==> self.entries@[j].0@ != key@,
            decreases self.entries@.len() - i,
        {
            if bytes_equal(self.entries[i].0.as_slice(), key) {
                return Some(i);
            }
            i = i + 1;
        }
        None
    }

    /// The value of the entry at `i`.
    pub fn value(&self, i: usize) -> (res: &V)
        requires
            i < self.spec_len(),
        ensures
            *res == self.value_at(i as int),
    {
        &self.entries[i].1
    }

    /// Whether some entry has the key `key`.
    pub fn contains(&self, key: &[u8]) -> (res: bool)
        requires
            self.wf(),
        ensures
            res == self@.dom().contains(key@),
    {
        self.find(key).is_some()
    }

    /// Set the value for `key`, replacing the value it had.
    pub fn insert(&mut self, key: Vec<u8>, v: V)
        requires
            old(self).wf(),
        ensures
            final(self).wf(),
            final(self)@ == old(self)@.insert(key@, v),
    {
        let ghost k = key@;
        let ghost s = self.entries@;
        match self.find(key.as_slice()) {
            Some(i) => {
                self.entries.set(i, (key, v));
                proof {
                    let t = self.entries@;
                    assert(t == s.update(i as int, (t[i as int].0, v)));
                    assert forall|a: int, b: int|
                        0 <= a < t.len() && 0 <= b < t.len() && a != b implies #[trigger] t[a].0@
                        != #[trigger] t[b].0@ by {
                        assert(s[a].0@ != s[b].0@);
                    }
                    assert forall|q: Seq<u8>| has_key(t, q) <==> has_key(s, q) || q == k by {
                        if has_key(t, q) {
                            let a = choose|a: int| 0 <= a < t.len() && #[trigger] t[a].0@ == q;
                            if a != i {
                                assert(s[a].0@ == q);
                            }
                        }
                        if has_key(s, q) {
                            let a = choose|a: int| 0 <= a < s.len() && #[trigger] s[a].0@ == q;
                            assert(t[a].0@ == q);
                        }
                        if q == k {
                            assert(t[i as int].0@ == q);
                        }
                    }
                    assert forall|q: Seq<u8>| #[trigger]
                        table_map(t).dom().contains(q) implies table_map(t)[q] == old(
                        self,
                    )@.insert(k, v)[q] by {
                        let a = index_of_key(t, q);
                        lemma_table_map_at(t, a);
                        if a != i {
                            lemma_table_map_at(s, a);
                        }
                    }
                    assert(table_map(t) =~= old(self)@.insert(k, v));
                }
            },
            None => {
                self.entries.push((key, v));
                proof {
                    let t = self.entries@;
                    let n = s.len() as int;
                    assert forall|a: int, b: int|
                        0 <= a < t.len() && 0 <= b < t.len() && a != b implies #[trigger] t[a].0@
                        != #[trigger] t[b].0@ by {
                        if a < n && b < n {
                            assert(s[a].0@ != s[b].0@);
                        } else if a < n {
                            assert(!has_key(s, k));
                            assert(s[a].0@ != k);
                        } else {
                            assert(!has_key(s, k));
                            assert(s[b].0@ != k);
                        }
                    }
                    assert forall|q: Seq<u8>| has_key(t, q) <==> has_key(s, q) || q == k by {
                        if has_key(t, q) {
                            let a = choose|a: int| 0 <= a < t.len() && #[trigger] t[a].0@ == q;
                            if a < n {
                                assert(s[a].0@ == q);
                            }
                        }
                        if has_key(s, q) {
                            let a = choose|a: int| 0 <= a < s.len() && #[trigger] s[a].0@ == q;
                            assert(t[a].0@ == q);
                        }
                        if q == k {
                            assert(t[n].0@ == q);
                        }
                    }
                    assert forall|q: Seq<u8>| #[trigger]
                        table_map(t).dom().contains(q) implies table_map(t)[q] == old(
                        self,
                    )@.insert(k, v)[q] by {
                        let a = index_of_key(t, q);
                        lemma_table_map_at(t, a);
                        if a < n {
                            lemma_table_map_at(s, a);
                        }
                    }
                    assert(table_map(t) =~= old(self)@.insert(k, v));
                }
            },
        }
    }

    /// Take out the entry for `key` and give back its value.
    pub fn remove(&mut self, key: &[u8]) -> (res: Option<V>)
        requires
            old(self).wf(),
        ensures
            final(self).wf(),
            final(self)@ == old(self)@.remove(key@),
            res is None <==> !old(self)@.dom().contains(key@),
            res matches Some(v) ==> v == old(self)@[key@],
    {
        let ghost k = key@;
        let ghost s = self.entries@;
        match self.find(key) {
            None => {
                assert(self@ =~= old(self)@.remove(k));
                None
            },
            Some(i) => {
                proof {
                    lemma_table_map_at(s, i as int);
                }
                let (_, v) = self.entries.remove(i);
                proof {
                    let t = self.entries@;
                    let ii = i as int;
                    assert forall|a: int| 0 <= a < t.len() implies #[trigger] t[a] == (if a < ii {
                        s[a]
                    } else {
                        s[a + 1]
                    }) by {}
                    assert forall|a: int, b: int|
                        0 <= a < t.len() && 0 <= b < t.len() && a != b implies #[trigger] t[a].0@
                        != #[trigger] t[b].0@ by {
                        let a2 = if a < ii {
                            a
                        } else {
                            a + 1
                        };
                        let b2 = if b < ii {
                            b
                        } else {
                            b + 1
                        };
                        assert(t[a] == s[a2]);
                        assert(t[b] == s[b2]);
                        assert(s[a2].0@ != s[b2].0@);
                    }
                    assert forall|q: Seq<u8>| has_key(t, q) <==> has_key(s, q) && q != k by {
                        if has_key(t, q) {
                            let a = choose|a: int| 0 <= a < t.len() && #[trigger] t[a].0@ == q;
                            let a2 = if a < ii {
                                a
                            } else {
                                a + 1
                            };
                            assert(t[a] == s[a2]);
                            assert(s[a2].0@ == q);
                            assert(a2 != ii);
                        }
                        if has_key(s, q) && q != k {
                            let a = choose|a: int| 0 <= a < s.len() && #[trigger] s[a].0@ == q;
                            assert(a != ii);
                            if a < ii {
                                assert(t[a] == s[a]);
                                assert(t[a].0@ == q);
                            } else {
                                assert(t[a - 1] == s[a]);
                                assert(t[a - 1].0@ == q);
                            }
                        }
                    }
                    assert forall|q: Seq<u8>| #[trigger]
                        table_map(t).dom().contains(q) implies table_map(t)[q] == old(
                        self,
                    )@.remove(k)[q] by {
                        let a = index_of_key(t, q);
                        lemma_table_map_at(t, a);
                        let a2 = if a < ii {
                            a
                        } else {
                            a + 1
                        };
                        assert(t[a] == s[a2]);
                        lemma_table_map_at(s, a2);
                    }
                    assert(table_map(t) =~= old(self)@.remove(k));
                }
                Some(v)
            },
        }
    }
}

impl ByteTable<usize> {
    /// Keep only the entries whose value is not `x`.
    pub fn retain_not(&mut self, x: usize)
        requires
            old(self).wf(),
        ensures
            final(self).wf(),
            final(self)@ == old(self)@.restrict(
                old(self)@.dom().filter(|k: Seq<u8>| old(self)@[k] != x),
            ),
    {
        let ghost s = self.entries@;
        let mut kept: Vec<(Vec<u8>, usize)> = Vec::new();
        let ghost mut from: Seq<int> = Seq::empty();
        let mut i: usize = 0;
        while i < self.entries.len()
            invariant
                self.entries@ == s,
                unique_keys(s),
                i <= s.len(),
                from.len() == kept@.len(),
                forall|a: int|
                    0 <= a < kept@.len() ==> 0 <= #[trigger] from[a] < i && same_entry(
                        s[from[a]],
                        kept@[a],
                    ) && s[from[a]].1 != x,
                forall|b: int| 0 <= b < i && #[trigger] s[b].1 != x ==> has_key(kept@, s[b].0@),
                forall|a1: int, a2: int|
                    0 <= a1 < a2 < from.len() ==> #[trigger] from[a1] < #[trigger] from[a2],
            decreases s.len() - i,
        {
            let v = self.entries[i].1;
            if v != x {
                let key = copy_all(self.entries[i].0.as_slice());
                let ghost before = kept@;
                kept.push((key, v));
                proof {
                    let n = before.len() as int;
                    from = from.push(i as int);
                    assert(same_entry(s[i as int], kept@[n]));
                    assert forall|b: int|
                        0 <= b < i + 1 && #[trigger] s[b].1 != x implies has_key(kept@, s[b].0@) by {
                        if b < i {
                            assert(has_key(before, s[b].0@));
                            let a = choose|a: int| 0 <= a < before.len() && #[trigger] before[a].0@ == s[b].0@;
                            assert(kept@[a] == before[a]);
                        } else {
                            assert(kept@[n].0@ == s[b].0@);
                        }
                    }
                }
            }
            i = i + 1;
        }
        proof {
            assert forall|a: int, b: int|
                0 <= a < kept@.len() && 0 <= b < kept@.len() && a != b implies #[trigger] kept@[a].0@
                != #[trigger] kept@[b].0@ by {
                assert(same_entry(s[from[a]], kept@[a]));
                assert(same_entry(s[from[b]], kept@[b]));
                assert(s[from[a]].0@ != s[from[b]].0@);
            }
        }
        self.entries = kept;
        proof {
            let t = self.entries@;
            let m = table_map(s);
            let f = m.dom().filter(|k: Seq<u8>| m[k] != x);
            assert forall|q: Seq<u8>| has_key(t, q) <==> f.contains(q) by {
                if has_key(t, q) {
                    let a = choose|a: int| 0 <= a < t.len() && #[trigger] t[a].0@ == q;
                    let b = from[a];
                    lemma_table_map_at(s, b);
                }
                if f.contains(q) {
                    let b = index_of_key(s, q);
                    lemma_table_map_at(s, b);
                    assert(s[b].1 != x);
                    assert(has_key(t, s[b].0@));
                }
            }
            assert forall|q: Seq<u8>| #[trigger] table_map(t).dom().contains(q) implies table_map(t)[q]
                == m.restrict(f)[q] by {
                let a = index_of_key(t, q);
                lemma_table_map_at(t, a);
                let b = from[a];
                lemma_table_map_at(s, b);
            }
            assert(table_map(t) =~= m.restrict(f));
        }
    }
}

} // verus!
