//! A table of values keyed by strings, with at most one entry per key.
//!
//! Its contents are a finite map from the key's characters to the value, and
//! every operation is specified over that map.

use vstd::prelude::*;
use crate::text::equal_str;

verus! {

/// Values keyed by strings; a key occurs at most once.
#[derive(Debug)]
pub struct KeyedTable<V> {
    entries: Vec<(String, V)>,
}

impl<V> KeyedTable<V> {
    /// No key occurs twice.
    #[verifier::type_invariant]
    pub closed spec fn keys_unique(self) -> bool {
        forall|i: int, j: int|
            0 <= i < j < self.entries@.len() ==> #[trigger] self.entries@[i].0@ != #[trigger] self.entries@[j].0@
    }

    /// The keys, in the order they were first inserted.
    pub closed spec fn key_seq(self) -> Seq<Seq<char>> {
        self.entries@.map_values(|e: (String, V)| e.0@)
    }

    /// Whether `k` is the key of entry `i`.
    pub closed spec fn key_at(self, i: int, k: Seq<char>) -> bool {
        0 <= i < self.entries@.len() && self.entries@[i].0@ == k
    }

    /// The contents, as a map from key characters to values.
    pub closed spec fn contents(self) -> Map<Seq<char>, V> {
        Map::new(
            |k: Seq<char>| exists|i: int| self.key_at(i, k),
            |k: Seq<char>| self.entries@[choose|i: int| self.key_at(i, k)].1,
        )
    }

    proof fn lemma_index(self, i: int)
        requires
            self.keys_unique(),
            0 <= i < self.entries@.len(),
        ensures
            self.contents().dom().contains(self.entries@[i].0@),
            self.contents()[self.entries@[i].0@] == self.entries@[i].1,
    {
        let k = self.entries@[i].0@;
        assert(self.key_at(i, k));
        let j = choose|j: int| self.key_at(j, k);
        if j != i {
            if j < i {
                assert(self.entries@[j].0@ != self.entries@[i].0@);
            } else {
                assert(self.entries@[i].0@ != self.entries@[j].0@);
            }
        }
    }

    /// An empty table.
    pub fn new() -> (t: Self)
        ensures
            t@ == Map::<Seq<char>, V>::empty(),
            t.key_seq() == Seq::<Seq<char>>::empty(),
    {
        let t = KeyedTable { entries: Vec::new() };
        assert(t.contents() =~= Map::<Seq<char>, V>::empty());
        assert(t.key_seq() =~= Seq::<Seq<char>>::empty());
        t
    }

    /// The position of `key`, if present.
    fn find(&self, key: &str) -> (r: Option<usize>)
        ensures
            match r {
                Some(i) => i < self.entries@.len() && self.entries@[i as int].0@ == key@,
                None => forall|i: int| 0 <= i < self.entries@.len() ==> self.entries@[i].0@ != key@,
            },
    {
        let mut i: usize = 0;
        while i < self.entries.len()
            invariant
                i <= self.entries@.len(),
                forall|j: int| 0 <= j < i ==> self.entries@[j].0@ != key@,
            decreases self.entries.len() - i,
        {
            if equal_str(self.entries[i].0.as_str(), key) {
                return Some(i);
            }
            i = i + 1;
        }
        None
    }

    /// The number of entries.
    pub fn len(&self) -> (n: usize)
        ensures
            n == self.key_seq().len(),
            n == self@.dom().len(),
            self@.dom().finite(),
    {
        proof {
            use_type_invariant(self);
            self.lemma_keys();
            let ks = self.key_seq();
            assert(ks.no_duplicates()) by {
                assert forall|a: int, b: int| 0 <= a < ks.len() && 0 <= b < ks.len() && a != b
                    implies ks[a] != ks[b] by {
                    if a < b {
                        assert(self.entries@[a].0@ != self.entries@[b].0@);
                    } else {
                        assert(self.entries@[b].0@ != self.entries@[a].0@);
                    }
                }
            }
            ks.unique_seq_to_set();
            assert(self@.dom() =~= ks.to_set());
        }
        self.entries.len()
    }

    /// Whether `key` has an entry.
    pub fn contains_key(&self, key: &str) -> (b: bool)
        ensures
            b == self@.dom().contains(key@),
    {
        proof { use_type_invariant(self); }
        match self.find(key) {
            Some(i) => {
                proof { self.lemma_index(i as int); }
                true
            },
            None => {
                assert(!(exists|i: int| self.key_at(i, key@)));
                false
            },
        }
    }

    /// The value stored under `key`, if any.
    pub fn get(&self, key: &str) -> (r: Option<&V>)
        ensures
            r is Some == self@.dom().contains(key@),
            r matches Some(v) ==> *v == self@[key@],
    {
        proof { use_type_invariant(self); }
        match self.find(key) {
            Some(i) => {
                proof { self.lemma_index(i as int); }
                Some(&self.entries[i].1)
            },
            None => {
                assert(!(exists|i: int| self.key_at(i, key@)));
                None
            },
        }
    }

    /// Stores `value` under `key`, replacing what was there.
    pub fn insert(&mut self, key: String, value: V)
        ensures
            final(self)@ == old(self)@.insert(key@, value),
    {
        proof { use_type_invariant(&*self); }
        let ghost old_t = *self;
        match self.find(key.as_str()) {
            Some(i) => {
                let ghost k = key@;
                let mut es: Vec<(String, V)> = Vec::new();
                std::mem::swap(&mut es, &mut self.entries);
                es.set(i, (key, value));
                self.entries = es;
                proof {
                    let new_t = *self;
                    assert forall|a: int, b: int| 0 <= a < b < new_t.entries@.len() implies
                        #[trigger] new_t.entries@[a].0@ != #[trigger] new_t.entries@[b].0@ by {
                        assert(old_t.entries@[a].0@ != old_t.entries@[b].0@);
                    }
                    assert forall|k2: Seq<char>| #[trigger] new_t.contents().dom().contains(k2) <==>
                        old_t.contents().insert(k, value).dom().contains(k2) by {
                        if exists|j: int| old_t.key_at(j, k2) {
                            let j = choose|j: int| old_t.key_at(j, k2);
                            assert(new_t.key_at(j, k2));
                        }
                        if exists|j: int| new_t.key_at(j, k2) {
                            let j = choose|j: int| new_t.key_at(j, k2);
                            if j != i {
                                assert(old_t.key_at(j, k2));
                            }
                        }
                        if k2 == k {
                            assert(new_t.key_at(i as int, k2));
                        }
                    }
                    assert forall|k2: Seq<char>| #[trigger] new_t.contents().dom().contains(k2) implies
                        new_t.contents()[k2] == old_t.contents().insert(k, value)[k2] by {
                        let j = choose|j: int| new_t.key_at(j, k2);
                        new_t.lemma_index(j);
                        if j != i {
                            old_t.lemma_index(j);
                        }
                    }
                    assert(new_t.contents() =~= old_t.contents().insert(k, value));
                }
            },
            None => {
                let ghost k = key@;
                let mut es: Vec<(String, V)> = Vec::new();
                std::mem::swap(&mut es, &mut self.entries);
                es.push((key, value));
                self.entries = es;
                proof {
                    let new_t = *self;
                    let n = old_t.entries@.len() as int;
                    assert forall|a: int, b: int| 0 <= a < b < new_t.entries@.len() implies
                        #[trigger] new_t.entries@[a].0@ != #[trigger] new_t.entries@[b].0@ by {
                        if b < n {
                            assert(old_t.entries@[a].0@ != old_t.entries@[b].0@);
                        }
                    }
                    assert forall|k2: Seq<char>| #[trigger] new_t.contents().dom().contains(k2) <==>
                        old_t.contents().insert(k, value).dom().contains(k2) by {
                        if exists|j: int| old_t.key_at(j, k2) {
                            let j = choose|j: int| old_t.key_at(j, k2);
                            assert(new_t.key_at(j, k2));
                        }
                        if exists|j: int| new_t.key_at(j, k2) {
                            let j = choose|j: int| new_t.key_at(j, k2);
                            if j != n {
                                assert(old_t.key_at(j, k2));
                            }
                        }
                        if k2 == k {
                            assert(new_t.key_at(n, k2));
                        }
                    }
                    assert forall|k2: Seq<char>| #[trigger] new_t.contents().dom().contains(k2) implies
                        new_t.contents()[k2] == old_t.contents().insert(k, value)[k2] by {
                        let j = choose|j: int| new_t.key_at(j, k2);
                        new_t.lemma_index(j);
                        if j != n {
                            old_t.lemma_index(j);
                        }
                    }
                    assert(new_t.contents() =~= old_t.contents().insert(k, value));
                }
            },
        }
    }

    /// Removes the entry for `key`, handing back its value.
    pub fn remove(&mut self, key: &str) -> (r: Option<V>)
        ensures
            final(self)@ == old(self)@.remove(key@),
            r is Some == old(self)@.dom().contains(key@),
            r matches Some(v) ==> v == old(self)@[key@],
    {
        proof { use_type_invariant(&*self); }
        let ghost old_t = *self;
        match self.find(key) {
            Some(i) => {
                proof { old_t.lemma_index(i as int); }
                let mut es: Vec<(String, V)> = Vec::new();
                std::mem::swap(&mut es, &mut self.entries);
                let (_k, v) = es.remove(i);
                self.entries = es;
                proof {
                    let new_t = *self;
                    let k = key@;
                    assert forall|a: int, b: int| 0 <= a < b < new_t.entries@.len() implies
                        #[trigger] new_t.entries@[a].0@ != #[trigger] new_t.entries@[b].0@ by {
                        let oa = if a < i { a } else { a + 1 };
                        let ob = if b < i { b } else { b + 1 };
                        assert(old_t.entries@[oa].0@ != old_t.entries@[ob].0@);
                    }
                    assert forall|k2: Seq<char>| #[trigger] new_t.contents().dom().contains(k2) <==>
                        old_t.contents().remove(k).dom().contains(k2) by {
                        if exists|j: int| old_t.key_at(j, k2) {
                            let j = choose|j: int| old_t.key_at(j, k2);
                            if k2 != k {
                                assert(j != i);
                                let nj = if j < i { j } else { j - 1 };
                                assert(new_t.key_at(nj, k2));
                            }
                        }
                        if exists|j: int| new_t.key_at(j, k2) {
                            let j = choose|j: int| new_t.key_at(j, k2);
                            let oj = if j < i { j } else { j + 1 };
                            assert(old_t.key_at(oj, k2));
                            if k2 == k {
                                if oj < i {
                                    assert(old_t.entries@[oj].0@ != old_t.entries@[i as int].0@);
                                } else {
                                    assert(old_t.entries@[i as int].0@ != old_t.entries@[oj].0@);
                                }
                            }
                        }
                    }
                    assert forall|k2: Seq<char>| #[trigger] new_t.contents().dom().contains(k2) implies
                        new_t.contents()[k2] == old_t.contents().remove(k)[k2] by {
                        let j = choose|j: int| new_t.key_at(j, k2);
                        new_t.lemma_index(j);
                        let oj = if j < i { j } else { j + 1 };
                        old_t.lemma_index(oj);
                    }
                    assert(new_t.contents() =~= old_t.contents().remove(k));
                }
                Some(v)
            },
            None => {
                assert(!(exists|i: int| old_t.key_at(i, key@)));
                assert(old_t.contents().remove(key@) =~= old_t.contents());
                None
            },
        }
    }

    /// Removes every entry.
    pub fn clear(&mut self)
        ensures
            final(self)@ == Map::<Seq<char>, V>::empty(),
    {
        self.entries = Vec::new();
        assert(self.contents() =~= Map::<Seq<char>, V>::empty());
    }

    /// The key and value of entry `i`, in insertion order.
    pub fn entry_at(&self, i: usize) -> (r: (&String, &V))
        requires
            i < self.key_seq().len(),
        ensures
            r.0@ == self.key_seq()[i as int],
            self@.dom().contains(r.0@),
            *r.1 == self@[r.0@],
    {
        proof {
            use_type_invariant(self);
            self.lemma_index(i as int);
        }
        (&self.entries[i].0, &self.entries[i].1)
    }

    /// Every key of the table is one of its listed keys, and the reverse.
    pub proof fn lemma_keys(self)
        ensures
            forall|k: Seq<char>| #[trigger] self@.dom().contains(k) <==> self.key_seq().contains(k),
    {
        assert forall|k: Seq<char>| #[trigger] self@.dom().contains(k) <==> self.key_seq().contains(k) by {
            if self@.dom().contains(k) {
                let j = choose|j: int| self.key_at(j, k);
                assert(self.key_seq()[j] == k);
            }
            if self.key_seq().contains(k) {
                let j = choose|j: int| 0 <= j < self.key_seq().len() && self.key_seq()[j] == k;
                assert(self.key_at(j, k));
            }
        }
    }
}

impl KeyedTable<String> {
    /// A copy of a table of strings.
    pub fn duplicate(&self) -> (t: Self)
        ensures
            t@ == self@,
            t.key_seq() == self.key_seq(),
    {
        proof { use_type_invariant(self); }
        let mut entries: Vec<(String, String)> = Vec::new();
        let mut i: usize = 0;
        while i < self.entries.len()
            invariant
                i <= self.entries@.len(),
                entries@ == self.entries@.take(i as int),
            decreases self.entries.len() - i,
        {
            let e = (self.entries[i].0.clone(), self.entries[i].1.clone());
            entries.push(e);
            assert(entries@ =~= self.entries@.take(i + 1));
            i = i + 1;
        }
        assert(entries@ =~= self.entries@);
        let t = KeyedTable { entries };
        proof {
            assert(t.keys_unique());
            assert forall|k: Seq<char>| #[trigger] self.contents().dom().contains(k)
                implies t.contents().dom().contains(k) && t.contents()[k] == self.contents()[k] by {
                let i = choose|i: int| self.key_at(i, k);
                assert(t.key_at(i, k));
                self.lemma_index(i);
                t.lemma_index(i);
            }
            assert forall|k: Seq<char>| #[trigger] t.contents().dom().contains(k)
                implies self.contents().dom().contains(k) by {
                let i = choose|i: int| t.key_at(i, k);
                assert(self.key_at(i, k));
            }
        }
        assert(t.contents() =~= self.contents());
        assert(t.key_seq() =~= self.key_seq());
        t
    }
}

impl<V> View for KeyedTable<V> {
    type V = Map<Seq<char>, V>;

    closed spec fn view(&self) -> Map<Seq<char>, V> {
        self.contents()
    }
}

} // verus!
