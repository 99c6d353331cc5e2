//! A map from names to values, for the small maps that a document holds.

use vstd::prelude::*;

verus! {

/// A finite map from names to values. No two of its entries share a name.
#[derive(Debug)]
pub struct NameMap<V> {
    entries: Vec<(String, V)>,
}

impl<V> NameMap<V> {
    #[verifier::type_invariant]
    closed spec fn names_are_distinct(self) -> bool {
        forall|i: int, j: int|
            0 <= i < j < self.entries@.len() ==> self.entries@[i].0@ != self.entries@[j].0@
    }

    /// Entry `i` is the entry called `name`.
    closed spec fn names(self, i: int, name: Seq<char>) -> bool {
        0 <= i < self.entries@.len() && self.entries@[i].0@ == name
    }

    /// The empty map.
    pub fn new() -> (map: Self)
        ensures
            map@ == Map::<Seq<char>, V>::empty(),
    {
        NameMap { entries: Vec::new() }
    }

    /// Position of the entry called `name`, if there is one.
    fn position(&self, name: &String) -> (found: Option<usize>)
        ensures
            match found {
                Some(i) => self.names(i as int, name@),
                None => forall|i: int| !self.names(i, name@),
            },
    {
        let mut i: usize = 0;
        while i < self.entries.len()
            invariant
                i <= self.entries@.len(),
                forall|k: int| 0 <= k < i ==> !self.names(k, name@),
            decreases self.entries@.len() - i,
        {
            if self.entries[i].0 == *name {
                return Some(i);
            }
            i += 1;
        }
        None
    }

    /// The value of the entry called `name`.
    pub fn get(&self, name: &String) -> (found: Option<&V>)
        ensures
            found == (if self@.dom().contains(name@) {
                Some(&self@[name@])
            } else {
                None
            }),
    {
        proof {
            use_type_invariant(self);
        }
        match self.position(name) {
            Some(i) => Some(&self.entries[i].1),
            None => None,
        }
    }

    /// Whether an entry is called `name`.
    pub fn contains_key(&self, name: &String) -> (found: bool)
        ensures
            found == self@.dom().contains(name@),
    {
        self.position(name).is_some()
    }

    /// `entries` lists this map: every name of the map once, each with its
    /// value.
    pub open spec fn lists(self, entries: Seq<(String, V)>) -> bool {
        &&& forall|i: int|
            0 <= i < entries.len() ==> self@.dom().contains(#[trigger] entries[i].0@)
                && self@[entries[i].0@] == entries[i].1
        &&& forall|i: int, j: int| 0 <= i < j < entries.len() ==> entries[i].0@ != entries[j].0@
        &&& forall|name: Seq<char>|
            self@.dom().contains(name) ==> exists|i: int|
                0 <= i < entries.len() && #[trigger] entries[i].0@ == name
    }

    /// The entries of the map: every name once, with its value.
    pub fn entries(&self) -> (entries: &Vec<(String, V)>)
        ensures
            self.lists(entries@),
    {
        proof {
            use_type_invariant(self);
            assert forall|i: int| 0 <= i < self.entries@.len() implies self@.dom().contains(
                #[trigger] self.entries@[i].0@,
            ) && self@[self.entries@[i].0@] == self.entries@[i].1 by {
                assert(self.names(i, self.entries@[i].0@));
                self.lemma_entry_is_mapped(i, self.entries@[i].0@);
            }
            assert forall|name: Seq<char>| self@.dom().contains(name) implies exists|i: int|
                0 <= i < self.entries@.len() && #[trigger] self.entries@[i].0@ == name by {
                let i = choose|i: int| self.names(i, name);
                assert(self.entries@[i].0@ == name);
            }
        }
        &self.entries
    }

    /// How many entries the map has.
    pub fn len(&self) -> (len: usize)
        ensures
            self@.dom().finite(),
            len == self@.dom().len(),
    {
        let entries = self.entries();
        proof {
            self.lemma_listing_counts(entries@);
        }
        entries.len()
    }

    /// The names of the first `count` of `entries`.
    pub open spec fn first_names(entries: Seq<(String, V)>, count: int) -> Set<Seq<char>>
        decreases count,
    {
        if count <= 0 {
            Set::empty()
        } else {
            Self::first_names(entries, count - 1).insert(entries[count - 1].0@)
        }
    }

    /// A listing of the map has as many entries as the map has names.
    pub proof fn lemma_listing_counts(self, entries: Seq<(String, V)>)
        requires
            self.lists(entries),
        ensures
            self@.dom().finite(),
            self@.dom().len() == entries.len(),
    {
        Self::lemma_first_names(entries, entries.len() as int);
        assert(self@.dom() =~= Self::first_names(entries, entries.len() as int)) by {
            assert forall|name: Seq<char>| self@.dom().contains(name) implies Self::first_names(
                entries,
                entries.len() as int,
            ).contains(name) by {
                let i = choose|i: int| 0 <= i < entries.len() && #[trigger] entries[i].0@ == name;
                assert(entries[i].0@ == name);
            }
        }
    }

    /// The names of the first `count` entries of a listing without
    /// repetition: there are `count` of them.
    proof fn lemma_first_names(entries: Seq<(String, V)>, count: int)
        requires
            0 <= count <= entries.len(),
            forall|i: int, j: int| 0 <= i < j < entries.len() ==> entries[i].0@ != entries[j].0@,
        ensures
            Self::first_names(entries, count).finite(),
            Self::first_names(entries, count).len() == count,
            forall|name: Seq<char>|
                Self::first_names(entries, count).contains(name) <==> exists|i: int|
                    0 <= i < count && #[trigger] entries[i].0@ == name,
        decreases count,
    {
        if count > 0 {
            Self::lemma_first_names(entries, count - 1);
            let before = Self::first_names(entries, count - 1);
            let last = entries[count - 1].0@;
            if before.contains(last) {
                let i = choose|i: int| 0 <= i < count - 1 && #[trigger] entries[i].0@ == last;
                assert(entries[i].0@ != entries[count - 1].0@);
            }
            assert forall|name: Seq<char>| before.insert(last).contains(name) implies exists|
                i: int,
            | 0 <= i < count && #[trigger] entries[i].0@ == name by {
                if name == last {
                    assert(entries[count - 1].0@ == name);
                } else {
                    let i = choose|i: int| 0 <= i < count - 1 && #[trigger] entries[i].0@ == name;
                    assert(entries[i].0@ == name);
                }
            }
        }
    }

    /// Where entry `i` is called `name`, the map sends `name` to that entry's value.
    proof fn lemma_entry_is_mapped(self, i: int, name: Seq<char>)
        requires
            self.names_are_distinct(),
            self.names(i, name),
        ensures
            self@.dom().contains(name),
            self@[name] == self.entries@[i].1,
    {
        let j = choose|j: int| self.names(j, name);
        assert(j == i);
    }

    /// This map with the entry `name` added, or put in the place of the one
    /// of that name.
    pub fn with(self, name: String, value: V) -> (map: Self)
        ensures
            map@ == self@.insert(name@, value),
    {
        proof {
            use_type_invariant(&self);
        }
        let found = self.position(&name);
        let ghost before = self;
        let ghost key = name@;
        let mut entries = self.entries;
        let ghost at: int = match found {
            Some(i) => i as int,
            None => entries@.len() as int,
        };
        match found {
            Some(i) => {
                entries.set(i, (name, value));
            },
            None => {
                entries.push((name, value));
            },
        }
        proof {
            assert(entries@[at] == (name, value));
            assert forall|i: int| 0 <= i < entries@.len() && i != at implies entries@[i]
                == before.entries@[i] && before.names(i, entries@[i].0@) && entries@[i].0@
                != key by {
                if found is Some {
                    assert(before.names(at, key));
                    if i < at {
                        assert(before.entries@[i].0@ != before.entries@[at].0@);
                    } else {
                        assert(before.entries@[at].0@ != before.entries@[i].0@);
                    }
                } else {
                    assert(!before.names(i, key));
                }
            }
            assert forall|i: int, j: int| 0 <= i < j < entries@.len() implies entries@[i].0@
                != entries@[j].0@ by {
                if i != at && j != at {
                    assert(before.names(i, entries@[i].0@));
                    assert(before.names(j, entries@[j].0@));
                }
            }
        }
        let map = NameMap { entries };
        proof {
            assert(map.names(at, key));
            map.lemma_entry_is_mapped(at, key);
            let after = before@.insert(key, value);
            assert forall|other: Seq<char>| #[trigger]
                map@.dom().contains(other) == after.dom().contains(other) && (
                map@.dom().contains(other) ==> map@[other] == after[other]) by {
                if other != key && map@.dom().contains(other) {
                    let i = choose|i: int| map.names(i, other);
                    assert(before.names(i, other));
                    before.lemma_entry_is_mapped(i, other);
                    map.lemma_entry_is_mapped(i, other);
                }
                if other != key && before@.dom().contains(other) {
                    let i = choose|i: int| before.names(i, other);
                    assert(i != at);
                    assert(map.names(i, other));
                    before.lemma_entry_is_mapped(i, other);
                    map.lemma_entry_is_mapped(i, other);
                }
            }
            assert(map@ =~= before@.insert(key, value));
        }
        map
    }

    /// Adds the entry `name`, or replaces the one of that name.
    pub fn insert(&mut self, name: String, value: V)
        ensures
            final(self)@ == old(self)@.insert(name@, value),
    {
        let mut taken = NameMap::new();
        std::mem::swap(self, &mut taken);
        *self = taken.with(name, value);
    }
}

impl<V> View for NameMap<V> {
    type V = Map<Seq<char>, V>;

    closed spec fn view(&self) -> Map<Seq<char>, V> {
        Map::new(
            |name: Seq<char>| exists|i: int| self.names(i, name),
            |name: Seq<char>| self.entries@[choose|i: int| self.names(i, name)].1,
        )
    }
}

} // verus!
