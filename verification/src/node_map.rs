//! A small map keyed by node name.
//!
//! Node names are strings, compared by content. The map keeps its entries in
//! insertion order in two parallel vectors and never holds a name twice.

use vstd::prelude::*;

verus! {

/// The contents of a sequence of strings.
pub open spec fn names_of(keys: Seq<String>) -> Seq<Seq<char>> {
    keys.map_values(|s: String| s@)
}

/// The names among `names` whose value, at the same place in `values`, has
/// the content `value`, in their order.
pub open spec fn matching(names: Seq<Seq<char>>, values: Seq<String>, value: Seq<char>) -> Seq<
    Seq<char>,
>
    decreases names.len(),
{
    if names.len() == 0 || values.len() != names.len() {
        Seq::empty()
    } else {
        let rest = matching(names.drop_last(), values.drop_last(), value);
        if values.last()@ == value {
            rest.push(names.last())
        } else {
            rest
        }
    }
}

/// A map from node names to values of type `V`.
pub struct NodeMap<V> {
    keys: Vec<String>,
    values: Vec<V>,
}

impl<V> View for NodeMap<V> {
    type V = Map<Seq<char>, V>;

    closed spec fn view(&self) -> Map<Seq<char>, V> {
        Map::new(
            |k: Seq<char>| names_of(self.keys@).contains(k),
            |k: Seq<char>| self.values@[names_of(self.keys@).index_of(k)],
        )
    }
}

impl<V> NodeMap<V> {
    /// Every key has a value, and no name occurs twice.
    pub closed spec fn wf(&self) -> bool {
        &&& self.keys.len() == self.values.len()
        &&& names_of(self.keys@).no_duplicates()
    }

    /// The names in the map, in the order in which they were inserted.
    pub closed spec fn names(&self) -> Seq<Seq<char>> {
        names_of(self.keys@)
    }

    /// The values in the map, in the order of [`Self::names`].
    pub closed spec fn entries(&self) -> Seq<V> {
        self.values@
    }

    /// How [`Self::names`] and [`Self::entries`] relate to the view.
    pub proof fn lemma_names(&self)
        requires
            self.wf(),
        ensures
            self.names().no_duplicates(),
            self.names().len() == self.entries().len(),
            self@.dom() == self.names().to_set(),
            self@.dom().finite(),
            self@.len() == self.names().len(),
            forall|i: int|
                0 <= i < self.names().len() ==> #[trigger] self@.contains_key(self.names()[i])
                    && self@[self.names()[i]] == self.entries()[i],
            forall|k: Seq<char>| #[trigger]
                self@.contains_key(k) ==> self.names().contains(k) && self@[k]
                    == self.entries()[self.names().index_of(k)],
    {
        let names = self.names();
        assert(self@.dom() =~= names.to_set());
        names.unique_seq_to_set();
        vstd::seq_lib::seq_to_set_is_finite(names);
        assert forall|i: int| 0 <= i < names.len() implies #[trigger] self@.contains_key(names[i])
            && self@[names[i]] == self.entries()[i] by {
            assert(names.contains(names[i]));
            let j = names.index_of(names[i]);
            assert(names[j] == names[i]);
        }
    }

    /// An empty map.
    pub fn new() -> (res: Self)
        ensures
            res.wf(),
            res@ == Map::<Seq<char>, V>::empty(),
    {
        let res = NodeMap { keys: Vec::new(), values: Vec::new() };
        assert(res@ =~= Map::<Seq<char>, V>::empty());
        res
    }

    /// The number of names in the map.
    pub fn len(&self) -> (res: usize)
        requires
            self.wf(),
        ensures
            res == self@.len(),
            res == self.names().len(),
    {
        proof {
            self.lemma_names();
        }
        self.keys.len()
    }

    /// Whether the map holds nothing.
    pub fn is_empty(&self) -> (res: bool)
        requires
            self.wf(),
        ensures
            res == (self@.len() == 0),
            res == (self@ == Map::<Seq<char>, V>::empty()),
    {
        proof {
            self.lemma_names();
            if self.keys.len() == 0 {
                assert(self@ =~= Map::<Seq<char>, V>::empty());
            } else {
                assert(self@.contains_key(self.names()[0]));
            }
        }
        self.keys.len() == 0
    }

    /// The place of `key` among the names, if it is there.
    fn position(&self, key: &String) -> (res: Option<usize>)
        requires
            self.wf(),
        ensures
            match res {
                Some(i) => i < self.names().len() && self.names()[i as int] == key@,
                None => !self.names().contains(key@),
            },
    {
        let mut i: usize = 0;
        while i < self.keys.len()
            invariant
                i <= self.keys.len(),
                forall|j: int| 0 <= j < i ==> names_of(self.keys@)[j] != key@,
            decreases self.keys.len() - i,
        {
            if self.keys[i] == *key {
                return Some(i);
            }
            i += 1;
        }
        None
    }

    /// Whether `key` is in the map.
    pub fn contains_key(&self, key: &String) -> (res: bool)
        requires
            self.wf(),
        ensures
            res == self@.contains_key(key@),
    {
        self.position(key).is_some()
    }

    /// The value stored under `key`, if there is one.
    pub fn get(&self, key: &String) -> (res: Option<&V>)
        requires
            self.wf(),
        ensures
            res == (if self@.contains_key(key@) {
                Some(&self@[key@])
            } else {
                None
            }),
    {
        proof {
            self.lemma_names();
        }
        match self.position(key) {
            Some(i) => Some(&self.values[i]),
            None => None,
        }
    }

    /// The name at place `i`.
    pub fn key_at(&self, i: usize) -> (res: &String)
        requires
            self.wf(),
            i < self.names().len(),
        ensures
            res@ == self.names()[i as int],
    {
        &self.keys[i]
    }

    /// The value at place `i`.
    pub fn value_at(&self, i: usize) -> (res: &V)
        requires
            self.wf(),
            i < self.names().len(),
        ensures
            *res == self.entries()[i as int],
    {
        &self.values[i]
    }

    /// Stores `value` under `key`, in place of what was there.
    pub fn insert(&mut self, key: String, value: V)
        requires
            old(self).wf(),
        ensures
            final(self).wf(),
            final(self)@ == old(self)@.insert(key@, value),
    {
        proof {
            self.lemma_names();
        }
        let ghost before = *self;
        match self.position(&key) {
            Some(i) => {
                self.values.set(i, value);
                proof {
                    self.lemma_names();
                    assert(self@ =~= before@.insert(key@, value));
                }
            },
            None => {
                self.keys.push(key);
                self.values.push(value);
                proof {
                    let n = before.names().len() as int;
                    assert(self.names() =~= before.names().push(key@));
                    assert(self.names().no_duplicates());
                    self.lemma_names();
                    assert forall|k: Seq<char>| #[trigger]
                        before@.insert(key@, value).contains_key(
                            k,
                        ) implies self@.contains_key(k) && self@[k] == before@.insert(
                        key@,
                        value,
                    )[k] by {
                        if k == key@ {
                            assert(self.names()[n] == k);
                        } else {
                            let j = before.names().index_of(k);
                            assert(self.names()[j] == k);
                        }
                    }
                    assert forall|k: Seq<char>| #[trigger]
                        self@.contains_key(k) implies before@.insert(key@, value).contains_key(
                        k,
                    ) by {
                        let j = self.names().index_of(k);
                        if j < n {
                            assert(before.names()[j] == k);
                        }
                    }
                    assert(self@ =~= before@.insert(key@, value));
                }
            },
        }
    }

    /// Takes `key` out of the map and returns what was stored under it.
    pub fn remove(&mut self, key: &String) -> (res: Option<V>)
        requires
            old(self).wf(),
        ensures
            final(self).wf(),
            final(self)@ == old(self)@.remove(key@),
            res == (if old(self)@.contains_key(key@) {
                Some(old(self)@[key@])
            } else {
                None
            }),
    {
        proof {
            self.lemma_names();
        }
        let ghost before = *self;
        match self.position(key) {
            Some(i) => {
                self.keys.remove(i);
                let value = self.values.remove(i);
                proof {
                    let n = before.names().len() as int;
                    assert(self.names() =~= before.names().remove(i as int));
                    assert forall|a: int, b: int|
                        0 <= a < self.names().len() && 0 <= b < self.names().len() && a
                            != b implies self.names()[a] != self.names()[b] by {
                        let a0 = if a < i { a } else { a + 1 };
                        let b0 = if b < i { b } else { b + 1 };
                        assert(self.names()[a] == before.names()[a0]);
                        assert(self.names()[b] == before.names()[b0]);
                    }
                    self.lemma_names();
                    assert forall|k: Seq<char>| #[trigger]
                        before@.remove(key@).contains_key(k) implies self@.contains_key(k)
                        && self@[k] == before@.remove(key@)[k] by {
                        let j = before.names().index_of(k);
                        let j1 = if j < i { j } else { j - 1 };
                        assert(self.names()[j1] == k);
                    }
                    assert forall|k: Seq<char>| #[trigger]
                        self@.contains_key(k) implies before@.remove(key@).contains_key(k) by {
                        let j = self.names().index_of(k);
                        let j0 = if j < i { j } else { j + 1 };
                        assert(before.names()[j0] == k);
                    }
                    assert(self@ =~= before@.remove(key@));
                }
                Some(value)
            },
            None => {
                proof {
                    assert(self@ =~= before@.remove(key@));
                }
                None
            },
        }
    }
}

impl NodeMap<String> {
    /// The names whose value has the content of `value`, each once, in the
    /// order in which they were inserted.
    pub fn names_with(&self, value: &String) -> (res: Vec<String>)
        requires
            self.wf(),
        ensures
            names_of(res@) == matching(self.names(), self.entries(), value@),
            names_of(res@).no_duplicates(),
            names_of(res@).to_set() == Set::new(
                |n: Seq<char>| self@.contains_key(n) && self@[n]@ == value@,
            ),
    {
        proof {
            self.lemma_names();
        }
        let ghost names = self.names();
        let ghost entries = self.entries();
        let mut res: Vec<String> = Vec::new();
        let mut i: usize = 0;
        while i < self.keys.len()
            invariant
                self.wf(),
                names == self.names(),
                entries == self.entries(),
                names.no_duplicates(),
                names.len() == entries.len(),
                i <= self.keys.len(),
                self.keys.len() == names.len(),
                names_of(res@).no_duplicates(),
                names_of(res@) == matching(names.take(i as int), entries.take(i as int), value@),
                forall|n: Seq<char>| #[trigger]
                    names_of(res@).contains(n) <==> exists|j: int|
                        0 <= j < i && names[j] == n && entries[j]@ == value@,
            decreases self.keys.len() - i,
        {
            proof {
                assert(names.take(i + 1).drop_last() =~= names.take(i as int));
                assert(entries.take(i + 1).drop_last() =~= entries.take(i as int));
            }
            if self.values[i] == *value {
                let ghost before = names_of(res@);
                res.push(self.keys[i].clone());
                proof {
                    let name = names[i as int];
                    assert(names_of(res@) =~= before.push(name));
                    assert(!before.contains(name)) by {
                        if before.contains(name) {
                            let j = choose|j: int|
                                0 <= j < i && names[j] == name && entries[j]@ == value@;
                            assert(names[j] == names[i as int]);
                        }
                    }
                    assert forall|n: Seq<char>| #[trigger]
                        names_of(res@).contains(n) <==> exists|j: int|
                            0 <= j < i + 1 && names[j] == n && entries[j]@ == value@ by {
                        if names_of(res@).contains(n) {
                            let k = choose|k: int|
                                0 <= k < names_of(res@).len() && names_of(res@)[k] == n;
                            if k < before.len() {
                                assert(before[k] == n);
                                assert(before.contains(n));
                            } else {
                                assert(names[i as int] == n && entries[i as int]@ == value@);
                            }
                        }
                        if exists|j: int| 0 <= j < i + 1 && names[j] == n && entries[j]@ == value@ {
                            let j = choose|j: int|
                                0 <= j < i + 1 && names[j] == n && entries[j]@ == value@;
                            if j < i {
                                assert(before.contains(n));
                                let k = choose|k: int| 0 <= k < before.len() && before[k] == n;
                                assert(names_of(res@)[k] == n);
                            } else {
                                assert(names_of(res@)[before.len() as int] == n);
                            }
                        }
                    }
                }
            }
            i += 1;
        }
        proof {
            assert(names.take(i as int) =~= names);
            assert(entries.take(i as int) =~= entries);
            let want = Set::new(|n: Seq<char>| self@.contains_key(n) && self@[n]@ == value@);
            assert forall|n: Seq<char>| names_of(res@).to_set().contains(n) <==> want.contains(
                n,
            ) by {
                if names_of(res@).contains(n) {
                    let j = choose|j: int| 0 <= j < i && names[j] == n && entries[j]@ == value@;
                    assert(self@.contains_key(names[j]));
                }
                if want.contains(n) {
                    let j = names.index_of(n);
                    assert(names[j] == n && entries[j]@ == value@);
                }
            }
            assert(names_of(res@).to_set() =~= want);
        }
        res
    }
}

} // verus!
