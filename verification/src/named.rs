//! An insertion-ordered collection of values keyed by unique names, the
//! model of every name-indexed table of the runtime (channels, graphs, nodes,
//! edges, ports).

use vstd::prelude::*;

verus! {

/// Values indexed by name; no name occurs twice.
#[derive(Debug)]
pub struct NamedList<V> {
    entries: Vec<(String, V)>,
}

impl<V> NamedList<V> {
    /// The entries as name characters and value, in insertion order.
    pub closed spec fn pairs(&self) -> Seq<(Seq<char>, V)> {
        self.entries@.map_values(|e: (String, V)| (e.0@, e.1))
    }

    /// The names, in insertion order.
    pub open spec fn names_view(&self) -> Seq<Seq<char>> {
        self.pairs().map_values(|p: (Seq<char>, V)| p.0)
    }

    /// Whether a name is present.
    pub open spec fn has(&self, k: Seq<char>) -> bool {
        self.names_view().contains(k)
    }

    /// The value stored under a name, if any.
    pub open spec fn lookup(&self, k: Seq<char>) -> Option<V> {
        if self.has(k) {
            Some(self.pairs()[self.names_view().index_of(k)].1)
        } else {
            None
        }
    }

    /// Well-formedness: no name occurs twice.
    pub open spec fn wf(&self) -> bool {
        self.names_view().no_duplicates()
    }

    pub proof fn lemma_lookup_at(&self, i: int)
        requires
            self.names_view().no_duplicates(),
            0 <= i < self.pairs().len(),
        ensures
            self.has(self.pairs()[i].0),
            self.lookup(self.pairs()[i].0) == Some(self.pairs()[i].1),
    {
        let k = self.pairs()[i].0;
        assert(self.names_view()[i] == k);
        let j = self.names_view().index_of(k);
        assert(self.names_view()[j] == k);
    }

    /// An empty collection.
    pub fn new() -> (res: Self)
        ensures
            res.wf(),
            res.pairs() == Seq::<(Seq<char>, V)>::empty(),
    {
        let res = NamedList { entries: Vec::new() };
        assert(res.pairs() =~= Seq::<(Seq<char>, V)>::empty());
        res
    }

    /// Number of entries.
    pub fn len(&self) -> (res: usize)
        ensures
            res == self.pairs().len(),
    {
        self.entries.len()
    }

    /// Position of a name, if present.
    pub fn find(&self, key: &str) -> (res: Option<usize>)
        requires
            self.wf(),
        ensures
            match res {
                Some(i) => i < self.pairs().len() && self.pairs()[i as int].0 == key@
                    && self.has(key@) && self.names_view().index_of(key@) == i,
                None => !self.has(key@),
            },
    {
        let k = String::from_str(key);
        let mut i: usize = 0;
        while i < self.entries.len()
            invariant
                k@ == key@,
                i <= self.entries.len(),
                self.names_view().no_duplicates(),
                forall|j: int| 0 <= j < i ==> self.names_view()[j] != key@,
            decreases self.entries.len() - i,
        {
            if self.entries[i].0 == k {
                proof {
                    assert(self.names_view()[i as int] == key@);
                    let j = self.names_view().index_of(key@);
                    assert(self.names_view()[j] == key@);
                }
                return Some(i);
            }
            assert(self.names_view()[i as int] != key@);
            i = i + 1;
        }
        None
    }

    /// Whether a name is present.
    pub fn contains_key(&self, key: &str) -> (res: bool)
        requires
            self.wf(),
        ensures
            res == self.has(key@),
    {
        self.find(key).is_some()
    }

    /// The value stored under a name.
    pub fn get(&self, key: &str) -> (res: Option<&V>)
        requires
            self.wf(),
        ensures
            match res {
                Some(v) => self.lookup(key@) == Some(*v),
                None => self.lookup(key@) is None,
            },
    {
        match self.find(key) {
            Some(i) => Some(&self.entries[i].1),
            None => None,
        }
    }

    /// The name at a position.
    pub fn name_at(&self, i: usize) -> (res: &String)
        requires
            i < self.pairs().len(),
        ensures
            res@ == self.pairs()[i as int].0,
    {
        &self.entries[i].0
    }

    /// The value at a position.
    pub fn value_at(&self, i: usize) -> (res: &V)
        requires
            i < self.pairs().len(),
        ensures
            *res == self.pairs()[i as int].1,
    {
        &self.entries[i].1
    }

    /// Stores `value` under `key`, replacing (in place) the value already
    /// stored there; returns the replaced value.
    pub fn insert(&mut self, key: String, value: V) -> (old_value: Option<V>)
        requires
            old(self).wf(),
        ensures
            final(self).wf(),
            old_value == old(self).lookup(key@),
            old(self).has(key@) ==> final(self).pairs() == old(self).pairs().update(
                old(self).names_view().index_of(key@),
                (key@, value),
            ),
            !old(self).has(key@) ==> final(self).pairs() == old(self).pairs().push((key@, value)),
            forall|k: Seq<char>|
                #[trigger] final(self).lookup(k) == if k == key@ {
                    Some(value)
                } else {
                    old(self).lookup(k)
                },
    {
        let ghost old_pairs = self.pairs();
        let ghost kv = key@;
        match self.find(key.as_str()) {
            Some(i) => {
                proof { self.lemma_lookup_at(i as int); }
                let (_name, old_v) = self.entries.remove(i);
                self.entries.insert(i, (key, value));
                proof {
                    assert(self.pairs() =~= old_pairs.update(i as int, (kv, value)));
                    assert(self.names_view() =~= old(self).names_view());
                    assert forall|k: Seq<char>| #[trigger] self.lookup(k) == if k == kv { Some(value) } else { old(self).lookup(k) } by {
                        if self.has(k) {
                            let j = self.names_view().index_of(k);
                            assert(self.names_view()[j] == k);
                            self.lemma_lookup_at(j);
                            old(self).lemma_lookup_at(j);
                            assert(old(self).names_view()[j] == k);
                            if j == i {
                                assert(k == kv);
                            } else {
                                assert(self.pairs()[j] == old_pairs[j]);
                                if k == kv {
                                    assert(self.names_view()[i as int] == kv);
                                }
                            }
                        } else {
                            assert(!old(self).has(k));
                            if k == kv {
                                assert(self.names_view()[i as int] == kv);
                            }
                        }
                    }
                }
                Some(old_v)
            },
            None => {
                self.entries.push((key, value));
                proof {
                    assert(self.pairs() =~= old_pairs.push((kv, value)));
                    assert(self.names_view() =~= old(self).names_view().push(kv));
                    assert(self.names_view().no_duplicates()) by {
                        assert forall|a: int, b: int| 0 <= a < self.names_view().len() && 0 <= b < self.names_view().len() && a != b
                            implies self.names_view()[a] != self.names_view()[b] by {
                            if a == self.names_view().len() - 1 {
                                assert(!old(self).names_view().contains(kv));
                                assert(old(self).names_view()[b] == self.names_view()[b]);
                            } else if b == self.names_view().len() - 1 {
                                assert(!old(self).names_view().contains(kv));
                                assert(old(self).names_view()[a] == self.names_view()[a]);
                            }
                        }
                    }
                    assert forall|k: Seq<char>| #[trigger] self.lookup(k) == if k == kv { Some(value) } else { old(self).lookup(k) } by {
                        if self.has(k) {
                            let j = self.names_view().index_of(k);
                            assert(self.names_view()[j] == k);
                            self.lemma_lookup_at(j);
                            if j < old_pairs.len() {
                                assert(self.pairs()[j] == old_pairs[j]);
                                old(self).lemma_lookup_at(j);
                                assert(old(self).names_view()[j] == k);
                                assert(k != kv);
                            } else {
                                assert(k == kv);
                            }
                        } else {
                            if old(self).has(k) {
                                let j = old(self).names_view().index_of(k);
                                assert(old(self).names_view()[j] == k);
                                assert(self.names_view()[j] == k);
                            }
                            if k == kv {
                                assert(self.names_view()[old_pairs.len() as int] == kv);
                            }
                        }
                    }
                }
                None
            },
        }
    }

    /// Removes the entry stored under `key`, returning its value.
    pub fn remove(&mut self, key: &str) -> (res: Option<V>)
        requires
            old(self).wf(),
        ensures
            final(self).wf(),
            res == old(self).lookup(key@),
            old(self).has(key@) ==> final(self).pairs() == old(self).pairs().remove(
                old(self).names_view().index_of(key@),
            ),
            !old(self).has(key@) ==> final(self).pairs() == old(self).pairs(),
            forall|k: Seq<char>|
                #[trigger] final(self).lookup(k) == if k == key@ {
                    None
                } else {
                    old(self).lookup(k)
                },
    {
        let ghost old_pairs = self.pairs();
        match self.find(key) {
            Some(i) => {
                proof { self.lemma_lookup_at(i as int); }
                let (_name, v) = self.entries.remove(i);
                proof {
                    assert(self.pairs() =~= old_pairs.remove(i as int));
                    assert(self.names_view() =~= old(self).names_view().remove(i as int));
                    assert(self.names_view().no_duplicates()) by {
                        assert forall|a: int, b: int| 0 <= a < self.names_view().len() && 0 <= b < self.names_view().len() && a != b
                            implies self.names_view()[a] != self.names_view()[b] by {
                            let a2 = if a < i { a } else { a + 1 };
                            let b2 = if b < i { b } else { b + 1 };
                            assert(self.names_view()[a] == old(self).names_view()[a2]);
                            assert(self.names_view()[b] == old(self).names_view()[b2]);
                        }
                    }
                    assert forall|k: Seq<char>| #[trigger] self.lookup(k) == if k == key@ { None } else { old(self).lookup(k) } by {
                        if self.has(k) {
                            let j = self.names_view().index_of(k);
                            self.lemma_lookup_at(j);
                            let j2 = if j < i { j } else { j + 1 };
                            assert(self.pairs()[j] == old_pairs[j2]);
                            old(self).lemma_lookup_at(j2);
                            assert(old(self).names_view()[j2] == k);
                            assert(k != key@);
                        } else {
                            if old(self).has(k) && k != key@ {
                                let j = old(self).names_view().index_of(k);
                                assert(old(self).names_view()[j] == k);
                                assert(j != i);
                                let j2 = if j < i { j } else { j - 1 };
                                assert(self.names_view()[j2] == k);
                            }
                        }
                    }
                }
                Some(v)
            },
            None => {
                None
            },
        }
    }

    /// The names, in insertion order.
    pub fn names(&self) -> (res: Vec<String>)
        requires
            self.wf(),
        ensures
            res@.map_values(|s: String| s@) == self.names_view(),
            res@.map_values(|s: String| s@).no_duplicates(),
    {
        let mut res: Vec<String> = Vec::new();
        let mut i: usize = 0;
        while i < self.entries.len()
            invariant
                i <= self.entries.len(),
                res@.len() == i,
                forall|k: int| 0 <= k < i ==> #[trigger] res@[k]@ == self.names_view()[k],
            decreases self.entries.len() - i,
        {
            assert(self.names_view()[i as int] == self.entries@[i as int].0@);
            res.push(self.entries[i].0.clone());
            i = i + 1;
        }
        assert(res@.map_values(|s: String| s@) =~= self.names_view());
        res
    }

    /// Removes every entry.
    pub fn clear(&mut self)
        ensures
            final(self).wf(),
            final(self).pairs() == Seq::<(Seq<char>, V)>::empty(),
    {
        self.entries.clear();
        assert(self.pairs() =~= Seq::<(Seq<char>, V)>::empty());
    }
}

} // verus!
