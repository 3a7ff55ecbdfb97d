use vstd::prelude::*;
use vstd::seq_lib::seq_to_set_is_finite;

verus! {

/// A finite map from identifiers to values that remembers the order in which
/// the identifiers were first inserted.
#[derive(Debug)]
pub struct IdMap<V> {
    entries: Vec<(String, V)>,
}

impl<V> IdMap<V> {
    /// The identifiers, in the order in which they were first inserted.
    pub closed spec fn ids(&self) -> Seq<Seq<char>> {
        Seq::new(self.entries@.len(), |i: int| self.entries@[i].0@)
    }

    /// The stored values, in the order of `ids`.
    closed spec fn values(&self) -> Seq<V> {
        Seq::new(self.entries@.len(), |i: int| self.entries@[i].1)
    }

    /// No identifier is stored twice.
    #[verifier::type_invariant]
    pub closed spec fn wf(&self) -> bool {
        self.ids().no_duplicates()
    }
}

impl<V: View> View for IdMap<V> {
    type V = Map<Seq<char>, V::V>;

    closed spec fn view(&self) -> Map<Seq<char>, V::V> {
        Map::new(
            |id: Seq<char>| self.ids().contains(id),
            |id: Seq<char>| self.values()[self.ids().index_of(id)]@,
        )
    }
}

impl<V: View> IdMap<V> {
    /// Each identifier of `ids` is a key of the map, with the value stored
    /// beside it.
    proof fn lemma_entries(&self)
        requires
            self.wf(),
        ensures
            self.ids().len() == self.values().len(),
            forall|id: Seq<char>| self@.contains_key(id) <==> self.ids().contains(id),
            forall|i: int|
                0 <= i < self.ids().len() ==> self@.contains_key(#[trigger] self.ids()[i])
                    && self@[self.ids()[i]] == self.values()[i]@,
    {
        assert forall|i: int| 0 <= i < self.ids().len() implies self@.contains_key(
            #[trigger] self.ids()[i],
        ) && self@[self.ids()[i]] == self.values()[i]@ by {
            let id = self.ids()[i];
            assert(self.ids().contains(id));
            let j = self.ids().index_of(id);
            assert(j == i);
        }
    }

    /// The keys of the map are the identifiers of `ids`, none of which occurs
    /// twice: the map is finite and has as many keys as `ids` has items.
    pub proof fn lemma_ids_are_the_keys(&self)
        requires
            self.wf(),
        ensures
            self.ids().no_duplicates(),
            self@.dom() == self.ids().to_set(),
            self@.dom().finite(),
            self@.dom().len() == self.ids().len(),
    {
        self.lemma_entries();
        assert(self@.dom() =~= self.ids().to_set());
        seq_to_set_is_finite(self.ids());
        self.ids().unique_seq_to_set();
    }

    /// An empty map.
    pub fn new() -> (map: Self)
        ensures
            map@ == Map::<Seq<char>, V::V>::empty(),
            map.ids() == Seq::<Seq<char>>::empty(),
    {
        let map = IdMap { entries: Vec::new() };
        assert(map.ids() =~= Seq::<Seq<char>>::empty());
        assert(map@ =~= Map::<Seq<char>, V::V>::empty());
        map
    }

    /// The number of identifiers in the map.
    pub fn len(&self) -> (n: usize)
        ensures
            n == self.ids().len(),
            n == self@.dom().len(),
    {
        proof {
            use_type_invariant(self);
            self.lemma_ids_are_the_keys();
        }
        self.entries.len()
    }

    /// The position of `id` among the entries, if it is stored.
    fn position(&self, id: &str) -> (found: Option<usize>)
        ensures
            match found {
                Some(i) => i < self.ids().len() && self.ids()[i as int] == id@,
                None => !self.ids().contains(id@),
            },
    {
        let wanted = id.to_owned();
        let mut i: usize = 0;
        while i < self.entries.len()
            invariant
                i <= self.entries@.len(),
                wanted@ == id@,
                forall|j: int| 0 <= j < i ==> self.ids()[j] != id@,
            decreases self.entries@.len() - i,
        {
            if self.entries[i].0 == wanted {
                return Some(i);
            }
            i += 1;
        }
        None
    }

    /// Looks up the value stored under `id`.
    pub fn get(&self, id: &str) -> (found: Option<&V>)
        ensures
            match found {
                Some(value) => self@.contains_key(id@) && value@ == self@[id@],
                None => !self@.contains_key(id@),
            },
    {
        proof {
            use_type_invariant(self);
            self.lemma_entries();
        }
        match self.position(id) {
            Some(i) => Some(&self.entries[i].1),
            None => None,
        }
    }

    /// Whether a value is stored under `id`.
    pub fn contains_key(&self, id: &str) -> (present: bool)
        ensures
            present == self@.contains_key(id@),
    {
        proof {
            use_type_invariant(self);
            self.lemma_entries();
        }
        self.position(id).is_some()
    }

    /// The identifier and the value at position `i` of the insertion order.
    pub fn entry_at(&self, i: usize) -> (entry: (&String, &V))
        requires
            i < self.ids().len(),
        ensures
            entry.0@ == self.ids()[i as int],
            self@.contains_key(entry.0@),
            entry.1@ == self@[entry.0@],
    {
        proof {
            use_type_invariant(self);
            self.lemma_entries();
            assert(self.ids()[i as int] == self.entries@[i as int].0@);
        }
        (&self.entries[i].0, &self.entries[i].1)
    }

    /// Stores `value` under `id`. An identifier that is already present keeps
    /// its place in the order and gets the new value.
    pub fn insert(&mut self, id: String, value: V)
        ensures
            final(self)@ == old(self)@.insert(id@, value@),
            final(self).ids() == if old(self)@.contains_key(id@) {
                old(self).ids()
            } else {
                old(self).ids().push(id@)
            },
    {
        proof {
            use_type_invariant(&*self);
            self.lemma_entries();
        }
        let ghost before = *self;
        let found = self.position(id.as_str());
        let mut entries: Vec<(String, V)> = Vec::new();
        std::mem::swap(&mut self.entries, &mut entries);
        match found {
            Some(i) => {
                entries.set(i, (id, value));
            },
            None => {
                entries.push((id, value));
            },
        }
        let ghost after = IdMap { entries };
        proof {
            if found is Some {
                assert(after.ids() =~= before.ids());
                assert(after.values() =~= before.values().update(found->0 as int, value));
            } else {
                assert(after.ids() =~= before.ids().push(id@));
                assert(after.values() =~= before.values().push(value));
            }
            after.lemma_entries();
            let expected = before@.insert(id@, value@);
            assert forall|k: Seq<char>| after@.contains_key(k) <==> expected.contains_key(k) by {
                if before.ids().contains(k) {
                    let j = before.ids().index_of(k);
                    assert(after.ids()[j] == k);
                }
                if k == id@ && found is None {
                    assert(after.ids()[before.ids().len() as int] == k);
                }
            }
            assert forall|k: Seq<char>| after@.contains_key(k) implies after@[k] == expected[k] by {
                let j = after.ids().index_of(k);
                assert(after@[after.ids()[j]] == after.values()[j]@);
                if j < before.ids().len() {
                    assert(before@[before.ids()[j]] == before.values()[j]@);
                }
            }
            assert(after@ =~= expected);
        }
        std::mem::swap(&mut self.entries, &mut entries);
    }
}

} // verus!
