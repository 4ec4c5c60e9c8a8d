use vstd::prelude::*;

verus! {

/// A collection of values keyed by name, at most one value per name, kept as
/// a list of pairs. Its model is the map from each name to its value.
pub struct NamedEntries<V> {
    items: Vec<(String, V)>,
    model: Ghost<Map<Seq<char>, V>>,
}

impl<V> NamedEntries<V> {
    pub closed spec fn view(&self) -> Map<Seq<char>, V> {
        self.model@
    }

    /// The pairs as they are stored.
    pub closed spec fn items(&self) -> Seq<(String, V)> {
        self.items@
    }

    /// Names are unique, and the pairs are exactly the model's entries.
    pub closed spec fn wf(&self) -> bool {
        &&& forall|i: int, j: int|
            0 <= i < j < self.items@.len() ==> #[trigger] self.items@[i].0@
                != #[trigger] self.items@[j].0@
        &&& forall|i: int|
            0 <= i < self.items@.len() ==> self.model@.contains_key(#[trigger] self.items@[i].0@)
                && self.model@[self.items@[i].0@] == self.items@[i].1
        &&& forall|k: Seq<char>|
            #[trigger] self.model@.contains_key(k) ==> exists|i: int|
                0 <= i < self.items@.len() && #[trigger] self.items@[i].0@ == k
    }

    /// An empty collection.
    pub fn new() -> (r: Self)
        ensures
            r.wf(),
            r@ == Map::<Seq<char>, V>::empty(),
    {
        NamedEntries { items: Vec::new(), model: Ghost(Map::empty()) }
    }

    /// The number of names held.
    pub fn len(&self) -> (r: usize)
        requires
            self.wf(),
        ensures
            r == self@.len(),
    {
        proof {
            self.lemma_len();
        }
        self.items.len()
    }

    proof fn lemma_len(&self)
        requires
            self.wf(),
        ensures
            self.items@.len() == self@.len(),
            self@.dom().finite(),
    {
        let names = Seq::new(self.items@.len(), |i: int| self.items@[i].0@);
        assert(names.no_duplicates()) by {
            assert forall|i: int, j: int| 0 <= i < names.len() && 0 <= j < names.len() && i != j
                implies names[i] != names[j] by {
                if i < j {
                    assert(self.items@[i].0@ != self.items@[j].0@);
                } else {
                    assert(self.items@[j].0@ != self.items@[i].0@);
                }
            }
        }
        assert(names.to_set() =~= self@.dom()) by {
            assert forall|k: Seq<char>| names.to_set().contains(k) implies self@.dom().contains(k) by {
                let i = choose|i: int| 0 <= i < names.len() && names[i] == k;
                assert(self.model@.contains_key(self.items@[i].0@));
            }
            assert forall|k: Seq<char>| self@.dom().contains(k) implies names.to_set().contains(k) by {
                assert(self.model@.contains_key(k));
                let i = choose|i: int| 0 <= i < self.items@.len() && #[trigger] self.items@[i].0@ == k;
                assert(names[i] == k);
            }
        }
        names.unique_seq_to_set();
    }

    /// Where `name` stands in the list, if it is held.
    fn find(&self, name: &str) -> (r: Option<usize>)
        requires
            self.wf(),
        ensures
            match r {
                Some(i) => i < self.items@.len() && self.items@[i as int].0@ == name@,
                None => !self@.contains_key(name@),
            },
    {
        let key = name.to_owned();
        let mut i: usize = 0;
        while i < self.items.len()
            invariant
                self.wf(),
                key@ == name@,
                i <= self.items@.len(),
                forall|j: int| 0 <= j < i ==> self.items@[j].0@ != name@,
            decreases self.items@.len() - i,
        {
            if self.items[i].0 == key {
                return Some(i);
            }
            i = i + 1;
        }
        proof {
            if self@.contains_key(name@) {
                let j = choose|j: int| 0 <= j < self.items@.len() && #[trigger] self.items@[j].0@ == name@;
                assert(self.items@[j].0@ == name@);
            }
        }
        None
    }

    /// Whether `name` is held.
    pub fn contains(&self, name: &str) -> (r: bool)
        requires
            self.wf(),
        ensures
            r == self@.contains_key(name@),
    {
        match self.find(name) {
            Some(i) => {
                assert(self.model@.contains_key(self.items@[i as int].0@));
                true
            },
            None => false,
        }
    }

    /// The value held under `name`.
    pub fn get(&self, name: &str) -> (r: Option<&V>)
        requires
            self.wf(),
        ensures
            match r {
                Some(v) => self@.contains_key(name@) && *v == self@[name@],
                None => !self@.contains_key(name@),
            },
    {
        match self.find(name) {
            Some(i) => {
                assert(self.model@.contains_key(self.items@[i as int].0@));
                Some(&self.items[i].1)
            },
            None => None,
        }
    }

    /// Takes the value held under `name` out, if there is one.
    pub fn remove(&mut self, name: &str) -> (r: Option<V>)
        requires
            old(self).wf(),
        ensures
            final(self).wf(),
            final(self)@ == old(self)@.remove(name@),
            match r {
                Some(v) => old(self)@.contains_key(name@) && v == old(self)@[name@],
                None => !old(self)@.contains_key(name@),
            },
    {
        match self.find(name) {
            Some(i) => {
                let ghost before = self.items@;
                let ghost m = self.model@;
                assert(m.contains_key(before[i as int].0@));
                let (_, v) = self.items.remove(i);
                self.model = Ghost(m.remove(name@));
                proof {
                    let after = self.items@;
                    assert(after =~= before.remove(i as int));
                    assert forall|a: int, b: int| 0 <= a < b < after.len() implies
                        #[trigger] after[a].0@ != #[trigger] after[b].0@ by {
                        let a0 = if a < i { a } else { a + 1 };
                        let b0 = if b < i { b } else { b + 1 };
                        assert(after[a] == before[a0] && after[b] == before[b0]);
                    }
                    assert forall|a: int| 0 <= a < after.len() implies
                        self.model@.contains_key(#[trigger] after[a].0@)
                        && self.model@[after[a].0@] == after[a].1 by {
                        let a0 = if a < i { a } else { a + 1 };
                        assert(after[a] == before[a0]);
                        assert(before[a0].0@ != before[i as int].0@);
                    }
                    assert forall|k: Seq<char>| #[trigger] self.model@.contains_key(k) implies
                        exists|a: int| 0 <= a < after.len() && #[trigger] after[a].0@ == k by {
                        let a0 = choose|a0: int| 0 <= a0 < before.len() && #[trigger] before[a0].0@ == k;
                        assert(a0 != i);
                        let a = if a0 < i { a0 } else { a0 - 1 };
                        assert(after[a] == before[a0]);
                    }
                }
                Some(v)
            },
            None => {
                assert(self@.remove(name@) =~= self@);
                None
            },
        }
    }

    /// Holds `value` under `name`, and hands back the value that it replaces.
    pub fn insert(&mut self, name: String, value: V) -> (r: Option<V>)
        requires
            old(self).wf(),
        ensures
            final(self).wf(),
            final(self)@ == old(self)@.insert(name@, value),
            match r {
                Some(v) => old(self)@.contains_key(name@) && v == old(self)@[name@],
                None => !old(self)@.contains_key(name@),
            },
    {
        let r = self.remove(name.as_str());
        let ghost before = self.items@;
        let ghost m = self.model@;
        let ghost key = name@;
        self.items.push((name, value));
        self.model = Ghost(m.insert(key, value));
        proof {
            let after = self.items@;
            assert(after =~= before.push((after.last().0, value)));
            assert forall|a: int, b: int| 0 <= a < b < after.len() implies
                #[trigger] after[a].0@ != #[trigger] after[b].0@ by {
                if b == before.len() {
                    assert(m.contains_key(before[a].0@));
                } else {
                    assert(before[a].0@ != before[b].0@);
                }
            }
            assert forall|a: int| 0 <= a < after.len() implies
                self.model@.contains_key(#[trigger] after[a].0@)
                && self.model@[after[a].0@] == after[a].1 by {
                if a < before.len() {
                    assert(m.contains_key(before[a].0@));
                }
            }
            assert forall|k: Seq<char>| #[trigger] self.model@.contains_key(k) implies
                exists|a: int| 0 <= a < after.len() && #[trigger] after[a].0@ == k by {
                if k == key {
                    assert(after[before.len() as int].0@ == k);
                } else {
                    let a = choose|a: int| 0 <= a < before.len() && #[trigger] before[a].0@ == k;
                    assert(after[a] == before[a]);
                }
            }
            assert(self.model@ =~= old(self)@.insert(name@, value));
        }
        r
    }

    /// Empties the collection and hands back every pair it held.
    pub fn take_all(&mut self) -> (r: Vec<(String, V)>)
        requires
            old(self).wf(),
        ensures
            final(self).wf(),
            final(self)@ == Map::<Seq<char>, V>::empty(),
            r@ == old(self).items(),
            forall|i: int, j: int| 0 <= i < j < r@.len() ==> #[trigger] r@[i].0@ != #[trigger] r@[j].0@,
            forall|i: int| 0 <= i < r@.len() ==> old(self)@.contains_key(#[trigger] r@[i].0@)
                && old(self)@[r@[i].0@] == r@[i].1,
            forall|k: Seq<char>| old(self)@.contains_key(k) ==> exists|i: int|
                0 <= i < r@.len() && #[trigger] r@[i].0@ == k,
    {
        let mut all: Vec<(String, V)> = Vec::new();
        std::mem::swap(&mut all, &mut self.items);
        self.model = Ghost(Map::empty());
        all
    }
}

} // verus!
