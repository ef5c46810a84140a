//! A small table of values that are found by a string.

use vstd::prelude::*;

verus! {

/// Values under string keys, in the order in which the keys first came.
///
/// No key occurs twice.
#[verifier::reject_recursive_types(V)]
pub struct Table<V> {
    entries: Vec<(String, V)>,
}

impl<V: DeepView> View for Table<V> {
    type V = Map<Seq<char>, V::V>;

    closed spec fn view(&self) -> Map<Seq<char>, V::V> {
        entries_map(self.entries@)
    }
}

impl<V: DeepView> DeepView for Table<V> {
    type V = Map<Seq<char>, V::V>;

    open spec fn deep_view(&self) -> Map<Seq<char>, V::V> {
        self@
    }
}

/// Whether some entry has this key.
spec fn has_key<V>(entries: Seq<(String, V)>, key: Seq<char>) -> bool {
    exists|i: int| 0 <= i < entries.len() && #[trigger] entries[i].0@ == key
}

/// The place of the entry with this key.
spec fn position<V>(entries: Seq<(String, V)>, key: Seq<char>) -> int {
    choose|i: int| 0 <= i < entries.len() && #[trigger] entries[i].0@ == key
}

spec fn entries_map<V: DeepView>(entries: Seq<(String, V)>) -> Map<Seq<char>, V::V> {
    Map::new(
        |key: Seq<char>| has_key(entries, key),
        |key: Seq<char>| entries[position(entries, key)].1.deep_view(),
    )
}

spec fn distinct_keys<V>(entries: Seq<(String, V)>) -> bool {
    forall|i: int, j: int|
        0 <= i < entries.len() && 0 <= j < entries.len() && i != j ==> (#[trigger] entries[i].0)@
            != (#[trigger] entries[j].0)@
}

impl<V> Table<V> {
    #[verifier::type_invariant]
    spec fn well_formed(self) -> bool {
        distinct_keys(self.entries@)
    }
}

impl<V: DeepView> Table<V> {
    /// The keys, in the order in which they first came.
    pub closed spec fn keys(self) -> Seq<Seq<char>> {
        self.entries@.map_values(|e: (String, V)| e.0@)
    }

    /// A table without entries.
    pub fn new() -> (res: Self)
        ensures
            res@ == Map::<Seq<char>, V::V>::empty(),
            res.keys() == Seq::<Seq<char>>::empty(),
    {
        let res = Table { entries: Vec::new() };
        assert(res@ =~= Map::<Seq<char>, V::V>::empty());
        assert(res.keys() =~= Seq::<Seq<char>>::empty());
        res
    }

    /// The number of keys.
    pub fn len(&self) -> (res: usize)
        ensures
            res == self.keys().len(),
    {
        self.entries.len()
    }

    /// Tells whether there is no entry.
    pub fn is_empty(&self) -> (res: bool)
        ensures
            res == self@.is_empty(),
    {
        let res = self.entries.len() == 0;
        proof {
            if !res {
                assert(self@.dom().contains(self.entries@[0].0@));
            } else {
                assert(self@.dom() =~= Set::<Seq<char>>::empty());
            }
        }
        res
    }

    /// The `i`-th key with its value.
    pub fn entry(&self, i: usize) -> (res: (&String, &V))
        requires
            i < self.keys().len(),
        ensures
            res.0@ == self.keys()[i as int],
            self@.contains_pair(res.0@, res.1.deep_view()),
    {
        proof {
            use_type_invariant(self);
            let entries = self.entries@;
            let key = entries[i as int].0@;
            assert(has_key(entries, key));
            assert(position(entries, key) == i);
        }
        (&self.entries[i].0, &self.entries[i].1)
    }

    fn find(&self, key: &str) -> (res: Option<usize>)
        ensures
            match res {
                Some(i) => {
                    &&& i < self.entries@.len()
                    &&& self.entries@[i as int].0@ == key@
                    &&& position(self.entries@, key@) == i
                },
                None => !has_key(self.entries@, key@),
            },
    {
        let wanted = key.to_owned();
        for i in 0..self.entries.len()
            invariant
                wanted@ == key@,
                forall|j: int| 0 <= j < i ==> (#[trigger] self.entries@[j]).0@ != key@,
        {
            if self.entries[i].0 == wanted {
                proof {
                    use_type_invariant(self);
                    assert(has_key(self.entries@, key@));
                }
                return Some(i);
            }
        }
        None
    }

    /// The value under `key`.
    pub fn get(&self, key: &str) -> (res: Option<&V>)
        ensures
            match res {
                Some(value) => self@.contains_pair(key@, value.deep_view()),
                None => !self@.contains_key(key@),
            },
    {
        match self.find(key) {
            Some(i) => Some(&self.entries[i].1),
            None => None,
        }
    }

    /// The table with `value` under `key`, in place of what was there.
    pub fn insert(self, key: String, value: V) -> (res: Self)
        ensures
            res@ == self@.insert(key@, value.deep_view()),
            res.keys() == if self@.contains_key(key@) {
                self.keys()
            } else {
                self.keys().push(key@)
            },
    {
        proof {
            use_type_invariant(&self);
        }
        let ghost before = self.entries@;
        let place = self.find(key.as_str());
        let ghost text = key@;
        let ghost seen = value.deep_view();
        let mut entries = self.entries;
        match place {
            Some(i) => {
                entries.set(i, (key, value));
            },
            None => {
                entries.push((key, value));
            },
        }
        proof {
            lemma_inserted(before, entries@, text, seen, place);
        }
        let res = Table { entries };
        proof {
            assert(res@ =~= entries_map(before).insert(text, seen));
            assert(res.keys() =~= if place is Some {
                before.map_values(|e: (String, V)| e.0@)
            } else {
                before.map_values(|e: (String, V)| e.0@).push(text)
            });
        }
        res
    }
}

impl Table<String> {
    /// A table with the same entries.
    pub fn duplicate(&self) -> (res: Self)
        ensures
            res@ == self@,
            res.keys() == self.keys(),
    {
        let mut entries: Vec<(String, String)> = Vec::new();
        for i in 0..self.entries.len()
            invariant
                entries@ == self.entries@.take(i as int),
        {
            entries.push((self.entries[i].0.clone(), self.entries[i].1.clone()));
            assert(entries@ =~= self.entries@.take(i + 1));
        }
        proof {
            use_type_invariant(self);
            assert(entries@ =~= self.entries@);
        }
        Table { entries }
    }
}

/// What a write at the place of `key`, or behind the last entry, does to the map.
proof fn lemma_inserted<V: DeepView>(
    before: Seq<(String, V)>,
    after: Seq<(String, V)>,
    key: Seq<char>,
    value: V::V,
    place: Option<usize>,
)
    requires
        distinct_keys(before),
        match place {
            Some(i) => {
                &&& i < before.len()
                &&& before[i as int].0@ == key
                &&& after == before.update(i as int, after[i as int])
                &&& after[i as int].0@ == key
                &&& after[i as int].1.deep_view() == value
            },
            None => {
                &&& !has_key(before, key)
                &&& after == before.push(after.last())
                &&& after.last().0@ == key
                &&& after.last().1.deep_view() == value
            },
        },
    ensures
        distinct_keys(after),
        entries_map(after) =~= entries_map(before).insert(key, value),
{
    let at = match place {
        Some(i) => i as int,
        None => before.len() as int,
    };
    assert(after[at].0@ == key);
    assert(has_key(after, key));
    assert forall|i: int| 0 <= i < before.len() && i != at implies after[i] == before[i] by {}
    assert(distinct_keys(after)) by {
        assert forall|i: int, j: int|
            0 <= i < after.len() && 0 <= j < after.len() && i != j implies (
        #[trigger] after[i].0)@ != (#[trigger] after[j].0)@ by {
            if i == at {
                if place is None {
                    assert(before[j].0@ != key);
                } else {
                    assert(before[j].0@ != before[i].0@);
                }
            } else if j == at {
                if place is None {
                    assert(before[i].0@ != key);
                } else {
                    assert(before[i].0@ != before[j].0@);
                }
            } else {
                assert(before[i].0@ != before[j].0@);
            }
        }
    }
    assert(position(after, key) == at);
    assert forall|k: Seq<char>| k != key implies has_key(after, k) == has_key(before, k) by {
        if has_key(before, k) {
            let p = position(before, k);
            assert(after[p].0@ == k);
        }
        if has_key(after, k) {
            let p = position(after, k);
            assert(before[p].0@ == k);
        }
    }
    assert forall|k: Seq<char>| k != key && has_key(before, k) implies after[position(
        after,
        k,
    )].1.deep_view() == before[position(before, k)].1.deep_view() by {
        let p = position(before, k);
        assert(after[p].0@ == k);
        assert(position(after, k) == p);
    }
}

} // verus!
