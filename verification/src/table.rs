//! A string-keyed table whose abstract value is a `Map<Seq<char>, V>`.
use vstd::prelude::*;
use crate::text::str_eq;

verus! {

/// A table from string keys to values; no key occurs twice.
#[derive(Debug)]
pub struct Table<V> {
    entries: Vec<(String, V)>,
}

impl<V> Table<V> {
    /// No key occurs twice.
    #[verifier::type_invariant]
    pub closed spec fn unique_keys(self) -> bool {
        forall|i: int, j: int|
            0 <= i < self.entries@.len() && 0 <= j < self.entries@.len() && i != j
                ==> #[trigger] self.entries@[i].0@ != #[trigger] self.entries@[j].0@
    }

    pub closed spec fn has_key_at(self, k: Seq<char>) -> bool {
        exists|i: int| 0 <= i < self.entries@.len() && #[trigger] self.entries@[i].0@ == k
    }

    pub closed spec fn index_of(self, k: Seq<char>) -> int {
        choose|i: int| 0 <= i < self.entries@.len() && #[trigger] self.entries@[i].0@ == k
    }

    /// The keys, in the table's order.
    pub closed spec fn key_seq(self) -> Seq<Seq<char>> {
        self.entries@.map_values(|e: (String, V)| e.0@)
    }

    proof fn lemma_index(self, i: int)
        requires
            self.unique_keys(),
            0 <= i < self.entries@.len(),
        ensures
            self.has_key_at(self.entries@[i].0@),
            self.index_of(self.entries@[i].0@) == i,
            self@.contains_key(self.entries@[i].0@),
            self@[self.entries@[i].0@] == self.entries@[i].1,
    {
        let k = self.entries@[i].0@;
        assert(self.has_key_at(k));
        let j = self.index_of(k);
        if j != i {
            assert(self.entries@[j].0@ == self.entries@[i].0@);
        }
    }
}

impl<V> View for Table<V> {
    type V = Map<Seq<char>, V>;

    closed spec fn view(&self) -> Map<Seq<char>, V> {
        Map::new(
            |k: Seq<char>| self.has_key_at(k),
            |k: Seq<char>| self.entries@[self.index_of(k)].1,
        )
    }
}

impl<V: Clone> Clone for Table<V> {
    /// A copy with the same keys; each value is cloned.
    fn clone(&self) -> (r: Self)
        ensures
            r@.dom() == self@.dom(),
            forall|k: Seq<char>| #[trigger] r@.contains_key(k) ==> cloned::<V>(self@[k], r@[k]),
    {
        proof {
            use_type_invariant(self);
        }
        let mut out: Vec<(String, V)> = Vec::new();
        let n = self.entries.len();
        for i in 0..n
            invariant
                n == self.entries@.len(),
                out@.len() == i,
                forall|k: int| 0 <= k < i ==> #[trigger] out@[k].0@ == self.entries@[k].0@,
                forall|k: int| 0 <= k < i ==> cloned::<V>(self.entries@[k].1, #[trigger] out@[k].1),
        {
            let key = self.entries[i].0.clone();
            let value = self.entries[i].1.clone();
            out.push((key, value));
        }
        proof {
            use_type_invariant(self);
            assert forall|i: int, j: int|
                0 <= i < out@.len() && 0 <= j < out@.len() && i != j implies #[trigger] out@[i].0@
                    != #[trigger] out@[j].0@ by {
                assert(self.entries@[i].0@ != self.entries@[j].0@);
            }
        }
        let r = Table { entries: out };
        proof {
            assert forall|k: Seq<char>| r.has_key_at(k) == self.has_key_at(k) by {
                if r.has_key_at(k) {
                    let i = choose|i: int| 0 <= i < r.entries@.len() && #[trigger] r.entries@[i].0@ == k;
                    assert(self.entries@[i].0@ == k);
                }
                if self.has_key_at(k) {
                    let i = choose|i: int| 0 <= i < self.entries@.len() && #[trigger] self.entries@[i].0@ == k;
                    assert(r.entries@[i].0@ == k);
                }
            }
            assert(r@.dom() =~= self@.dom());
            assert forall|k: Seq<char>| #[trigger] r@.contains_key(k) implies cloned::<V>(self@[k], r@[k]) by {
                let i = self.index_of(k);
                self.lemma_index(i);
                r.lemma_index(i);
            }
        }
        r
    }
}

impl<V> Table<V> {
    /// An empty table.
    pub fn new() -> (t: Self)
        ensures
            t@ == Map::<Seq<char>, V>::empty(),
    {
        let t = Table { entries: Vec::new() };
        assert(t@ =~= Map::<Seq<char>, V>::empty());
        t
    }

    /// The position of `key`, if present.
    fn position(&self, key: &str) -> (r: Option<usize>)
        ensures
            match r {
                Some(i) => i < self.entries@.len() && self.entries@[i as int].0@ == key@,
                None => !self.has_key_at(key@),
            },
    {
        let n = self.entries.len();
        for i in 0..n
            invariant
                n == self.entries@.len(),
                forall|j: int| 0 <= j < i ==> self.entries@[j].0@ != key@,
        {
            if str_eq(self.entries[i].0.as_str(), key) {
                return Some(i);
            }
        }
        None
    }

    /// The value stored under `key`.
    pub fn get(&self, key: &str) -> (r: Option<&V>)
        ensures
            r is Some <==> self@.contains_key(key@),
            r is Some ==> *r.unwrap() == self@[key@],
    {
        proof {
            use_type_invariant(self);
        }
        match self.position(key) {
            Some(i) => {
                proof {
                    self.lemma_index(i as int);
                }
                Some(&self.entries[i].1)
            },
            None => None,
        }
    }

    /// `key` is present.
    pub fn contains_key(&self, key: &str) -> (r: bool)
        ensures
            r == self@.contains_key(key@),
    {
        proof {
            use_type_invariant(self);
        }
        match self.position(key) {
            Some(i) => {
                proof {
                    self.lemma_index(i as int);
                }
                true
            },
            None => false,
        }
    }

    /// The table holds nothing.
    pub fn is_empty(&self) -> (r: bool)
        ensures
            r == (self@ == Map::<Seq<char>, V>::empty()),
    {
        proof {
            use_type_invariant(self);
        }
        if self.entries.len() == 0 {
            assert(self@ =~= Map::<Seq<char>, V>::empty());
            true
        } else {
            proof {
                self.lemma_index(0);
                assert(self@.contains_key(self.entries@[0].0@));
                assert(!Map::<Seq<char>, V>::empty().contains_key(self.entries@[0].0@));
            }
            false
        }
    }

    /// Stores `value` under `key`, replacing what was there.
    pub fn insert(&mut self, key: String, value: V)
        ensures
            final(self)@ == old(self)@.insert(key@, value),
    {
        proof {
            use_type_invariant(&*self);
        }
        let ghost old_entries = self.entries@;
        let ghost prior = self@;
        match self.position(key.as_str()) {
            Some(i) => {
                proof {
                    self.lemma_index(i as int);
                }
                let mut entries: Vec<(String, V)> = Vec::new();
                std::mem::swap(&mut entries, &mut self.entries);
                entries.set(i, (key, value));
                let ghost new_entries = entries@;
                assert(new_entries == old_entries.update(i as int, (key, value)));
                proof {
                    assert forall|a: int, b: int|
                        0 <= a < new_entries.len() && 0 <= b < new_entries.len() && a != b
                            implies #[trigger] new_entries[a].0@ != #[trigger] new_entries[b].0@ by {
                        assert(old_entries[a].0@ != old_entries[b].0@);
                    }
                }
                self.entries = entries;
                proof {
                    assert forall|k: Seq<char>|
                        #[trigger] self@.contains_key(k) == prior.insert(key@, value).contains_key(k)
                        by {
                        if k == key@ {
                            assert(self.entries@[i as int].0@ == k);
                        }
                        if k != key@ && prior.contains_key(k) {
                            let j = choose|j: int|
                                0 <= j < old_entries.len() && #[trigger] old_entries[j].0@ == k;
                            assert(self.entries@[j].0@ == k);
                        }
                        if self@.contains_key(k) && k != key@ {
                            let j = self.index_of(k);
                            assert(old_entries[j].0@ == k);
                        }
                    }
                    assert forall|k: Seq<char>| #[trigger]
                        self@.contains_key(k) implies self@[k] == prior.insert(key@, value)[k] by {
                        let j = self.index_of(k);
                        self.lemma_index(j);
                        if k != key@ {
                            assert(j != i);
                            assert(old_entries[j].0@ == k);
                        }
                    }
                    assert forall|k: Seq<char>|
                        self@.contains_key(k) && k != key@ implies self@[k] == prior[k] by {
                        let j = self.index_of(k);
                        self.lemma_index(j);
                        assert(old_entries[j] == self.entries@[j]);
                        let jj = choose|jj: int|
                            0 <= jj < old_entries.len() && #[trigger] old_entries[jj].0@ == k;
                        assert(jj == j);
                    }
                    assert(self@ =~= prior.insert(key@, value));
                }
            },
            None => {
                let mut entries: Vec<(String, V)> = Vec::new();
                std::mem::swap(&mut entries, &mut self.entries);
                entries.push((key, value));
                proof {
                    let ne = entries@;
                    assert forall|a: int, b: int|
                        0 <= a < ne.len() && 0 <= b < ne.len() && a != b
                            implies #[trigger] ne[a].0@ != #[trigger] ne[b].0@ by {
                        if a < old_entries.len() && b < old_entries.len() {
                            assert(old_entries[a].0@ != old_entries[b].0@);
                        } else if a < old_entries.len() {
                            assert(ne[a] == old_entries[a]);
                        } else {
                            assert(ne[b] == old_entries[b]);
                        }
                    }
                }
                self.entries = entries;
                proof {
                    let n = old_entries.len();
                    assert(self.entries@[n as int].0@ == key@);
                    assert forall|k: Seq<char>| #[trigger]
                        self@.contains_key(k) == prior.insert(key@, value).contains_key(k) by {
                        if k != key@ && prior.contains_key(k) {
                            let j = choose|j: int|
                                0 <= j < old_entries.len() && #[trigger] old_entries[j].0@ == k;
                            assert(self.entries@[j].0@ == k);
                        }
                        if self@.contains_key(k) && k != key@ {
                            let j = self.index_of(k);
                            assert(j < n);
                            assert(old_entries[j].0@ == k);
                        }
                    }
                    assert forall|k: Seq<char>| #[trigger]
                        self@.contains_key(k) implies self@[k] == prior.insert(key@, value)[k] by {
                        let j = self.index_of(k);
                        self.lemma_index(j);
                        if k != key@ {
                            assert(j < n);
                            let jj = choose|jj: int|
                                0 <= jj < old_entries.len() && #[trigger] old_entries[jj].0@ == k;
                            assert(old_entries[j].0@ == k);
                            assert(jj == j);
                        } else {
                            self.lemma_index(n as int);
                        }
                    }
                    assert(self@ =~= prior.insert(key@, value));
                }
            },
        }
    }

    /// Removes `key`, returning the value it held.
    pub fn remove(&mut self, key: &str) -> (r: Option<V>)
        ensures
            final(self)@ == old(self)@.remove(key@),
            r is Some <==> old(self)@.contains_key(key@),
            r is Some ==> r.unwrap() == old(self)@[key@],
    {
        proof {
            use_type_invariant(&*self);
        }
        let ghost old_entries = self.entries@;
        let ghost prior = self@;
        match self.position(key) {
            Some(i) => {
                proof {
                    self.lemma_index(i as int);
                }
                let mut entries: Vec<(String, V)> = Vec::new();
                std::mem::swap(&mut entries, &mut self.entries);
                let removed = entries.remove(i);
                let ghost new_entries = entries@;
                assert(new_entries == old_entries.remove(i as int));
                proof {
                    assert forall|a: int, b: int|
                        0 <= a < new_entries.len() && 0 <= b < new_entries.len() && a != b
                            implies #[trigger] new_entries[a].0@ != #[trigger] new_entries[b].0@ by {
                        let oa = if a < i { a } else { a + 1 };
                        let ob = if b < i { b } else { b + 1 };
                        assert(new_entries[a] == old_entries[oa]);
                        assert(new_entries[b] == old_entries[ob]);
                        assert(old_entries[oa].0@ != old_entries[ob].0@);
                    }
                }
                self.entries = entries;
                proof {
                    assert forall|k: Seq<char>| #[trigger]
                        self@.contains_key(k) == prior.remove(key@).contains_key(k) by {
                        if k != key@ && prior.contains_key(k) {
                            let j = choose|j: int|
                                0 <= j < old_entries.len() && #[trigger] old_entries[j].0@ == k;
                            assert(j != i);
                            let nj = if j < i { j } else { j - 1 };
                            assert(self.entries@[nj] == old_entries[j]);
                        }
                        if self@.contains_key(k) {
                            let j = self.index_of(k);
                            let oj = if j < i { j } else { j + 1 };
                            assert(self.entries@[j] == old_entries[oj]);
                            assert(oj != i);
                            assert(old_entries[oj].0@ != old_entries[i as int].0@);
                        }
                    }
                    assert forall|k: Seq<char>| #[trigger]
                        self@.contains_key(k) implies self@[k] == prior.remove(key@)[k] by {
                        let j = self.index_of(k);
                        self.lemma_index(j);
                        let oj = if j < i { j } else { j + 1 };
                        assert(self.entries@[j] == old_entries[oj]);
                        let jj = choose|jj: int|
                            0 <= jj < old_entries.len() && #[trigger] old_entries[jj].0@ == k;
                        assert(old_entries[oj].0@ == k);
                        if jj != oj {
                            assert(old_entries[jj].0@ != old_entries[oj].0@);
                        }
                    }
                    assert(self@ =~= prior.remove(key@));
                }
                Some(removed.1)
            },
            None => {
                proof {
                    assert(self@ =~= prior.remove(key@));
                }
                None
            },
        }
    }

    /// Removes every entry.
    pub fn clear(&mut self)
        ensures
            final(self)@ == Map::<Seq<char>, V>::empty(),
    {
        self.entries = Vec::new();
        assert(self@ =~= Map::<Seq<char>, V>::empty());
    }

    /// The keys, each once.
    pub fn keys(&self) -> (r: Vec<String>)
        ensures
            forall|i: int| 0 <= i < r@.len() ==> self@.contains_key(#[trigger] r@[i]@),
            forall|k: Seq<char>|
                self@.contains_key(k) ==> exists|i: int| 0 <= i < r@.len() && #[trigger] r@[i]@ == k,
            forall|i: int, j: int|
                0 <= i < r@.len() && 0 <= j < r@.len() && i != j ==> #[trigger] r@[i]@
                    != #[trigger] r@[j]@,
    {
        proof {
            use_type_invariant(self);
        }
        let mut out: Vec<String> = Vec::new();
        let n = self.entries.len();
        for i in 0..n
            invariant
                n == self.entries@.len(),
                self.unique_keys(),
                out@.len() == i,
                forall|j: int| 0 <= j < i ==> #[trigger] out@[j]@ == self.entries@[j].0@,
        {
            out.push(self.entries[i].0.clone());
        }
        proof {
            assert forall|i: int| 0 <= i < out@.len() implies self@.contains_key(
                #[trigger] out@[i]@,
            ) by {
                self.lemma_index(i);
            }
            assert forall|k: Seq<char>| self@.contains_key(k) implies exists|i: int|
                0 <= i < out@.len() && #[trigger] out@[i]@ == k by {
                let j = self.index_of(k);
                assert(out@[j]@ == k);
            }
        }
        out
    }
}

} // verus!
