//! A small map from device serials to values, kept as two parallel vectors
//! in which no serial occurs twice.

use vstd::prelude::*;

verus! {

/// A map keyed by serial. Its view is the mathematical map from the serials
/// it holds to their values.
pub struct SerialMap<V> {
    keys: Vec<String>,
    values: Vec<V>,
}

impl<V> SerialMap<V> {
    /// Number of entries.
    pub closed spec fn spec_len(&self) -> nat {
        self.keys@.len()
    }

    /// The serial of the entry at `i`.
    pub closed spec fn spec_key(&self, i: int) -> Seq<char> {
        self.keys@[i]@
    }

    /// The value of the entry at `i`.
    pub closed spec fn spec_value(&self, i: int) -> V {
        self.values@[i]
    }

    /// Whether the entry at `i` exists and is keyed by `key`.
    pub open spec fn holds_at(&self, i: int, key: Seq<char>) -> bool {
        0 <= i < self.spec_len() && self.spec_key(i) == key
    }

    /// Well-formedness: every key has its value, and no key occurs twice.
    pub closed spec fn wf(&self) -> bool {
        &&& self.keys@.len() == self.values@.len()
        &&& forall|i: int, j: int|
            0 <= i < j < self.keys@.len() ==> self.keys@[i]@ != self.keys@[j]@
    }

    /// The map that the entries denote.
    pub closed spec fn view(&self) -> Map<Seq<char>, V> {
        Map::new(
            |key: Seq<char>| exists|i: int| self.holds_at(i, key),
            |key: Seq<char>| self.spec_value(choose|i: int| self.holds_at(i, key)),
        )
    }

    /// The entries are exactly the pairs of the view, each once.
    pub proof fn lemma_entries(&self)
        requires
            self.wf(),
        ensures
            forall|i: int|
                0 <= i < self.spec_len() ==> self@.contains_key(#[trigger] self.spec_key(i))
                    && self@[self.spec_key(i)] == self.spec_value(i),
            forall|i: int, j: int|
                0 <= i < j < self.spec_len() ==> self.spec_key(i) != self.spec_key(j),
            forall|key: Seq<char>| #[trigger]
                self@.contains_key(key) ==> exists|i: int| self.holds_at(i, key),
    {
        assert forall|i: int| 0 <= i < self.spec_len() implies self@.contains_key(
            #[trigger] self.spec_key(i),
        ) && self@[self.spec_key(i)] == self.spec_value(i) by {
            self.lemma_at(i);
        }
    }

    /// The entry at `i` is a pair of the view.
    proof fn lemma_at(&self, i: int)
        requires
            self.wf(),
            0 <= i < self.spec_len(),
        ensures
            self@.contains_key(self.spec_key(i)),
            self@[self.spec_key(i)] == self.spec_value(i),
    {
        let key = self.spec_key(i);
        assert(self.holds_at(i, key));
        let j = choose|j: int| self.holds_at(j, key);
        assert(self.holds_at(j, key));
        assert(j == i);
    }

    /// A key that no entry holds is not in the view.
    proof fn lemma_absent(&self, key: Seq<char>)
        requires
            forall|i: int| 0 <= i < self.spec_len() ==> self.spec_key(i) != key,
        ensures
            !self@.contains_key(key),
    {
    }

    /// The empty map.
    pub fn new() -> (map: Self)
        ensures
            map.wf(),
            map@ == Map::<Seq<char>, V>::empty(),
            map.spec_len() == 0,
    {
        let map = SerialMap { keys: Vec::new(), values: Vec::new() };
        assert(map@ =~= Map::<Seq<char>, V>::empty());
        map
    }

    /// Number of entries.
    pub fn len(&self) -> (n: usize)
        requires
            self.wf(),
        ensures
            n == self.spec_len(),
    {
        self.keys.len()
    }

    /// The serial of the entry at `i`.
    pub fn key_at(&self, i: usize) -> (key: &String)
        requires
            self.wf(),
            i < self.spec_len(),
        ensures
            key@ == self.spec_key(i as int),
    {
        &self.keys[i]
    }

    /// The value of the entry at `i`.
    pub fn value_at(&self, i: usize) -> (value: &V)
        requires
            self.wf(),
            i < self.spec_len(),
        ensures
            *value == self.spec_value(i as int),
    {
        &self.values[i]
    }

    /// Where `key` stands among the entries, if it does.
    fn find(&self, key: &String) -> (found: Option<usize>)
        requires
            self.wf(),
        ensures
            match found {
                Some(i) => self.holds_at(i as int, key@),
                None => forall|i: int| 0 <= i < self.spec_len() ==> self.spec_key(i) != key@,
            },
    {
        let mut i: usize = 0;
        while i < self.keys.len()
            invariant
                i <= self.keys.len(),
                forall|j: int| 0 <= j < i ==> self.spec_key(j) != key@,
            decreases self.keys.len() - i,
        {
            if self.keys[i] == *key {
                return Some(i);
            }
            i = i + 1;
        }
        None
    }

    /// Whether the map holds `key`.
    pub fn contains(&self, key: &String) -> (present: bool)
        requires
            self.wf(),
        ensures
            present == self@.contains_key(key@),
    {
        match self.find(key) {
            Some(_) => true,
            None => {
                proof {
                    self.lemma_absent(key@);
                }
                false
            },
        }
    }

    /// The value stored under `key`.
    pub fn get(&self, key: &String) -> (value: Option<&V>)
        requires
            self.wf(),
        ensures
            value.is_some() == self@.contains_key(key@),
            value matches Some(v) ==> *v == self@[key@],
    {
        match self.find(key) {
            Some(i) => {
                proof {
                    self.lemma_at(i as int);
                }
                Some(&self.values[i])
            },
            None => {
                proof {
                    self.lemma_absent(key@);
                }
                None
            },
        }
    }

    /// Stores `value` under `key`, in place of what was there.
    pub fn insert(&mut self, key: String, value: V)
        requires
            old(self).wf(),
        ensures
            final(self).wf(),
            final(self)@ == old(self)@.insert(key@, value),
    {
        let found = self.find(&key);
        match found {
            Some(i) => {
                self.values.set(i, value);
                proof {
                    let after = *self;
                    assert forall|k: Seq<char>| after@.contains_key(k) == old(self)@.insert(
                        key@,
                        value,
                    ).contains_key(k) by {
                        if after@.contains_key(k) {
                            let j = choose|j: int| after.holds_at(j, k);
                            assert(old(self).holds_at(j, k));
                        }
                        if old(self)@.contains_key(k) {
                            let j = choose|j: int| old(self).holds_at(j, k);
                            assert(after.holds_at(j, k));
                        }
                        if k == key@ {
                            assert(after.holds_at(i as int, k));
                        }
                    }
                    assert forall|k: Seq<char>| after@.contains_key(k) implies after@[k]
                        == old(self)@.insert(key@, value)[k] by {
                        let j = choose|j: int| after.holds_at(j, k);
                        assert(after.holds_at(j, k));
                        after.lemma_at(j);
                        if k != key@ {
                            assert(old(self).holds_at(j, k));
                            old(self).lemma_at(j);
                        } else {
                            assert(j == i);
                        }
                    }
                    assert(after@ =~= old(self)@.insert(key@, value));
                }
            },
            None => {
                self.keys.push(key);
                self.values.push(value);
                proof {
                    let after = *self;
                    let n = old(self).spec_len() as int;
                    assert forall|a: int, b: int| 0 <= a < b < after.keys@.len() implies after.keys@[a]@
                        != after.keys@[b]@ by {
                        if b == n {
                            assert(old(self).spec_key(a) != key@);
                        }
                    }
                    assert(after.wf());
                    assert(after.holds_at(n, key@));
                    assert forall|k: Seq<char>| after@.contains_key(k) == old(self)@.insert(
                        key@,
                        value,
                    ).contains_key(k) by {
                        if after@.contains_key(k) {
                            let j = choose|j: int| after.holds_at(j, k);
                            if j < n {
                                assert(old(self).holds_at(j, k));
                            }
                        }
                        if old(self)@.contains_key(k) {
                            let j = choose|j: int| old(self).holds_at(j, k);
                            assert(after.holds_at(j, k));
                        }
                    }
                    assert forall|k: Seq<char>| after@.contains_key(k) implies after@[k]
                        == old(self)@.insert(key@, value)[k] by {
                        let j = choose|j: int| after.holds_at(j, k);
                        assert(after.holds_at(j, k));
                        after.lemma_at(j);
                        if j < n {
                            assert(old(self).holds_at(j, k));
                            old(self).lemma_at(j);
                        }
                    }
                    assert(after@ =~= old(self)@.insert(key@, value));
                }
            },
        }
    }

    /// Takes out the entry of `key` and returns its value, if there is one.
    pub fn remove(&mut self, key: &String) -> (value: Option<V>)
        requires
            old(self).wf(),
        ensures
            final(self).wf(),
            final(self)@ == old(self)@.remove(key@),
            value.is_some() == old(self)@.contains_key(key@),
            value matches Some(v) ==> v == old(self)@[key@],
    {
        let found = self.find(key);
        match found {
            Some(i) => {
                proof {
                    old(self).lemma_at(i as int);
                }
                let _ = self.keys.remove(i);
                let v = self.values.remove(i);
                proof {
                    let after = *self;
                    let before = *old(self);
                    assert forall|a: int, b: int| 0 <= a < b < after.keys@.len() implies after.keys@[a]@
                        != after.keys@[b]@ by {
                        let aa = if a < i { a } else { a + 1 };
                        let bb = if b < i { b } else { b + 1 };
                        assert(before.keys@[aa]@ != before.keys@[bb]@);
                    }
                    assert(after.wf());
                    assert forall|j: int| 0 <= j < after.spec_len() implies after.spec_key(j)
                        == before.spec_key(if j < i { j } else { j + 1 }) && after.spec_value(j)
                        == before.spec_value(if j < i { j } else { j + 1 }) by {}
                    assert forall|k: Seq<char>| after@.contains_key(k) == before@.remove(
                        key@,
                    ).contains_key(k) by {
                        if after@.contains_key(k) {
                            let j = choose|j: int| after.holds_at(j, k);
                            let jj = if j < i { j } else { j + 1 };
                            assert(before.holds_at(jj, k));
                        }
                        if before@.contains_key(k) && k != key@ {
                            let j = choose|j: int| before.holds_at(j, k);
                            let jj = if j < i { j } else { j - 1 };
                            assert(after.holds_at(jj, k));
                        }
                    }
                    assert forall|k: Seq<char>| after@.contains_key(k) implies after@[k]
                        == before@.remove(key@)[k] by {
                        let j = choose|j: int| after.holds_at(j, k);
                        assert(after.holds_at(j, k));
                        after.lemma_at(j);
                        let jj = if j < i { j } else { j + 1 };
                        assert(before.holds_at(jj, k));
                        before.lemma_at(jj);
                    }
                    assert(after@ =~= before@.remove(key@));
                }
                Some(v)
            },
            None => {
                proof {
                    self.lemma_absent(key@);
                    assert(self@ =~= old(self)@.remove(key@));
                }
                None
            },
        }
    }
}

} // verus!
