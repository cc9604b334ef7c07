use vstd::prelude::*;

verus! {

/// The value stored under `key` in a list of entries: the last entry with that
/// key, if any.
pub open spec fn find_entry<V>(entries: Seq<(String, V)>, key: Seq<char>) -> Option<V>
    decreases entries.len(),
{
    if entries.len() == 0 {
        None
    } else if entries.last().0@ == key {
        Some(entries.last().1)
    } else {
        find_entry(entries.drop_last(), key)
    }
}

/// No two entries share a key.
pub open spec fn keys_unique<V>(entries: Seq<(String, V)>) -> bool {
    forall|i: int, j: int|
        0 <= i < entries.len() && 0 <= j < entries.len() && i != j ==> #[trigger] entries[i].0@
            != #[trigger] entries[j].0@
}

proof fn lemma_find_absent<V>(entries: Seq<(String, V)>, key: Seq<char>)
    requires
        forall|i: int| 0 <= i < entries.len() ==> (#[trigger] entries[i]).0@ != key,
    ensures
        find_entry(entries, key) is None,
    decreases entries.len(),
{
    if entries.len() > 0 {
        assert(entries.last() == entries[entries.len() - 1]);
        let rest = entries.drop_last();
        assert forall|i: int| 0 <= i < rest.len() implies (#[trigger] rest[i]).0@ != key by {
            assert(rest[i] == entries[i]);
        }
        lemma_find_absent(rest, key);
    }
}

proof fn lemma_find_present<V>(entries: Seq<(String, V)>, i: int)
    requires
        keys_unique(entries),
        0 <= i < entries.len(),
    ensures
        find_entry(entries, entries[i].0@) == Some(entries[i].1),
    decreases entries.len(),
{
    let last = entries.len() - 1;
    assert(entries.last() == entries[last]);
    if i != last {
        let rest = entries.drop_last();
        assert(entries[i].0@ != entries[last].0@);
        assert(rest[i] == entries[i]);
        assert forall|a: int, b: int|
            0 <= a < rest.len() && 0 <= b < rest.len() && a != b implies #[trigger] rest[a].0@
            != #[trigger] rest[b].0@ by {
            assert(rest[a] == entries[a]);
            assert(rest[b] == entries[b]);
        }
        lemma_find_present(rest, i);
    }
}

/// A map from text keys to values, kept as a list of entries with distinct keys.
pub struct Registry<V> {
    entries: Vec<(String, V)>,
}

impl<V> View for Registry<V> {
    type V = Map<Seq<char>, V>;

    closed spec fn view(&self) -> Map<Seq<char>, V> {
        Map::new(
            |k: Seq<char>| find_entry(self.entries@, k) is Some,
            |k: Seq<char>| find_entry(self.entries@, k)->0,
        )
    }
}

impl<V> Registry<V> {
    #[verifier::type_invariant]
    spec fn entries_unique(self) -> bool {
        keys_unique(self.entries@)
    }

    /// An empty registry.
    pub fn new() -> (r: Self)
        ensures
            r@ == Map::<Seq<char>, V>::empty(),
    {
        let r = Registry { entries: Vec::new() };
        assert(r@ =~= Map::<Seq<char>, V>::empty());
        r
    }

    /// Where `key` stands in the entries.
    fn position(&self, key: &String) -> (r: Option<usize>)
        ensures
            match r {
                Some(i) => i < self.entries@.len() && self.entries@[i as int].0@ == key@,
                None => forall|i: int|
                    0 <= i < self.entries@.len() ==> (#[trigger] self.entries@[i]).0@ != key@,
            },
    {
        let mut i: usize = 0;
        while i < self.entries.len()
            invariant
                i <= self.entries@.len(),
                forall|j: int| 0 <= j < i ==> (#[trigger] self.entries@[j]).0@ != key@,
            decreases self.entries@.len() - i,
        {
            if self.entries[i].0 == *key {
                return Some(i);
            }
            i = i + 1;
        }
        None
    }

    proof fn lemma_view_at(&self, i: int)
        requires
            keys_unique(self.entries@),
            0 <= i < self.entries@.len(),
        ensures
            self@.contains_key(self.entries@[i].0@),
            self@[self.entries@[i].0@] == self.entries@[i].1,
    {
        lemma_find_present(self.entries@, i);
    }

    proof fn lemma_view_absent(&self, key: Seq<char>)
        requires
            forall|i: int| 0 <= i < self.entries@.len() ==> (#[trigger] self.entries@[i]).0@ != key,
        ensures
            !self@.contains_key(key),
    {
        lemma_find_absent(self.entries@, key);
    }

    /// Whether a value is stored under `key`.
    pub fn contains_key(&self, key: &String) -> (r: bool)
        ensures
            r == self@.contains_key(key@),
    {
        proof {
            use_type_invariant(self);
        }
        match self.position(key) {
            Some(i) => {
                proof {
                    self.lemma_view_at(i as int);
                }
                true
            },
            None => {
                proof {
                    self.lemma_view_absent(key@);
                }
                false
            },
        }
    }

    /// The value stored under `key`.
    pub fn get(&self, key: &String) -> (r: Option<&V>)
        ensures
            match r {
                Some(v) => self@.contains_key(key@) && *v == self@[key@],
                None => !self@.contains_key(key@),
            },
    {
        proof {
            use_type_invariant(self);
        }
        match self.position(key) {
            Some(i) => {
                proof {
                    self.lemma_view_at(i as int);
                }
                Some(&self.entries[i].1)
            },
            None => {
                proof {
                    self.lemma_view_absent(key@);
                }
                None
            },
        }
    }

    /// Whether nothing is stored.
    pub fn is_empty(&self) -> (r: bool)
        ensures
            r == (self@ =~= Map::<Seq<char>, V>::empty()),
    {
        proof {
            use_type_invariant(self);
        }
        if self.entries.len() == 0 {
            assert(self@ =~= Map::<Seq<char>, V>::empty());
            true
        } else {
            proof {
                self.lemma_view_at(0);
            }
            false
        }
    }

    /// Removes what is stored under `key` and returns it.
    pub fn remove(&mut self, key: &String) -> (r: Option<V>)
        ensures
            final(self)@ == old(self)@.remove(key@),
            match r {
                Some(v) => old(self)@.contains_key(key@) && v == old(self)@[key@],
                None => !old(self)@.contains_key(key@),
            },
    {
        proof {
            use_type_invariant(&*self);
        }
        match self.position(key) {
            Some(i) => {
                proof {
                    self.lemma_view_at(i as int);
                }
                let ghost before = self.entries@;
                let ghost old_view = self@;
                let mut entries: Vec<(String, V)> = Vec::new();
                std::mem::swap(&mut entries, &mut self.entries);
                let entry = entries.remove(i);
                proof {
                    assert forall|a: int, b: int|
                        0 <= a < entries@.len() && 0 <= b < entries@.len() && a != b implies #[trigger] entries@[a].0@
                        != #[trigger] entries@[b].0@ by {
                        let aa = if a < i { a } else { a + 1 };
                        let bb = if b < i { b } else { b + 1 };
                        assert(entries@[a] == before[aa]);
                        assert(entries@[b] == before[bb]);
                    }
                }
                self.entries = entries;
                proof {
                    assert forall|k: Seq<char>| #![trigger self@.contains_key(k)]
                        self@.contains_key(k) == old_view.remove(key@).contains_key(k)
                        && (self@.contains_key(k) ==> self@[k] == old_view.remove(key@)[k]) by {
                        if k == key@ {
                            assert forall|j: int| 0 <= j < self.entries@.len() implies (
                            #[trigger] self.entries@[j]).0@ != k by {
                                if j < i {
                                    assert(self.entries@[j] == before[j]);
                                } else {
                                    assert(self.entries@[j] == before[j + 1]);
                                }
                            }
                            self.lemma_view_absent(k);
                        } else {
                            if exists|j: int| 0 <= j < before.len() && (#[trigger] before[j]).0@ == k {
                                let j = choose|j: int| 0 <= j < before.len() && (#[trigger] before[j]).0@ == k;
                                lemma_find_present(before, j);
                                let jj = if j < i { j } else { j - 1 };
                                assert(self.entries@[jj] == before[j]);
                                self.lemma_view_at(jj);
                            } else {
                                lemma_find_absent(before, k);
                                assert forall|j: int| 0 <= j < self.entries@.len() implies (
                                #[trigger] self.entries@[j]).0@ != k by {
                                    if j < i {
                                        assert(self.entries@[j] == before[j]);
                                    } else {
                                        assert(self.entries@[j] == before[j + 1]);
                                    }
                                }
                                self.lemma_view_absent(k);
                            }
                        }
                    }
                    assert(self@ =~= old_view.remove(key@));
                }
                Some(entry.1)
            },
            None => {
                proof {
                    self.lemma_view_absent(key@);
                    assert(self@.remove(key@) =~= self@);
                }
                None
            },
        }
    }

    /// Stores `value` under `key`, replacing what was stored there.
    pub fn insert(&mut self, key: String, value: V)
        ensures
            final(self)@ == old(self)@.insert(key@, value),
    {
        let _ = self.remove(&key);
        proof {
            use_type_invariant(&*self);
        }
        let ghost before = self.entries@;
        let ghost mid = self@;
        proof {
            assert forall|j: int| 0 <= j < before.len() implies (#[trigger] before[j]).0@ != key@ by {
                if before[j].0@ == key@ {
                    self.lemma_view_at(j);
                }
            }
        }
        let ghost k = key@;
        let mut entries: Vec<(String, V)> = Vec::new();
        std::mem::swap(&mut entries, &mut self.entries);
        entries.push((key, value));
        proof {
            assert forall|a: int, b: int|
                0 <= a < entries@.len() && 0 <= b < entries@.len() && a != b implies #[trigger] entries@[a].0@
                != #[trigger] entries@[b].0@ by {
                if a < before.len() {
                    assert(entries@[a] == before[a]);
                }
                if b < before.len() {
                    assert(entries@[b] == before[b]);
                }
            }
        }
        self.entries = entries;
        proof {
            assert(self.entries@.drop_last() == before);
            assert(self@ =~= mid.insert(k, value));
        }
    }
}

} // verus!
