//! A table from names to values in which no name occurs twice and the
//! names keep the order they came in.

use crate::text::str_eq;
use vstd::prelude::*;

verus! {

/// Values by name, in insertion order.
pub struct NameTable<V> {
    entries: Vec<(String, V)>,
}

impl<V> NameTable<V> {
    /// The names, in the order they were inserted.
    pub closed spec fn names(&self) -> Seq<Seq<char>> {
        Seq::new(self.entries@.len(), |i: int| self.entries@[i].0@)
    }

    /// The values, each at the index of its name.
    pub closed spec fn values(&self) -> Seq<V> {
        Seq::new(self.entries@.len(), |i: int| self.entries@[i].1)
    }

    /// No name occurs twice.
    pub open spec fn wf(&self) -> bool {
        &&& self.names().len() == self.values().len()
        &&& forall|i: int, j: int|
            0 <= i < j < self.names().len() ==> self.names()[i] != self.names()[j]
    }

    /// Whether `name` is in the table.
    pub open spec fn has(&self, name: Seq<char>) -> bool {
        self.names().contains(name)
    }

    /// The index of `name`, where it is in the table.
    pub open spec fn index_of(&self, name: Seq<char>) -> int {
        self.names().index_of(name)
    }

    /// The value under `name`, where it is in the table.
    pub open spec fn value_of(&self, name: Seq<char>) -> V {
        self.values()[self.index_of(name)]
    }

    /// In a well-formed table a name stands at one index only.
    pub proof fn lemma_index_of(&self, name: Seq<char>, i: int)
        requires
            self.wf(),
            0 <= i < self.names().len(),
            self.names()[i] == name,
        ensures
            self.has(name),
            self.index_of(name) == i,
    {
    }

    /// An empty table.
    pub fn new() -> (table: Self)
        ensures
            table.wf(),
            table.names().len() == 0,
            table.values().len() == 0,
    {
        NameTable { entries: Vec::new() }
    }

    /// The number of names.
    pub fn len(&self) -> (n: usize)
        ensures
            n == self.names().len(),
            n == self.values().len(),
    {
        self.entries.len()
    }

    /// The index at which `name` stands.
    pub fn position(&self, name: &str) -> (r: Option<usize>)
        requires
            self.wf(),
        ensures
            match r {
                Some(i) => self.has(name@) && i == self.index_of(name@) && i < self.names().len()
                    && self.names()[i as int] == name@,
                None => !self.has(name@),
            },
    {
        let mut i: usize = 0;
        while i < self.entries.len()
            invariant
                i <= self.entries@.len(),
                self.wf(),
                forall|k: int| 0 <= k < i ==> self.names()[k] != name@,
            decreases self.entries@.len() - i,
        {
            if str_eq(self.entries[i].0.as_str(), name) {
                proof {
                    self.lemma_index_of(name@, i as int);
                }
                return Some(i);
            }
            i += 1;
        }
        None
    }

    /// Whether `name` is in the table.
    pub fn contains_key(&self, name: &str) -> (found: bool)
        requires
            self.wf(),
        ensures
            found == self.has(name@),
    {
        self.position(name).is_some()
    }

    /// The name at index `i`.
    pub fn name_at(&self, i: usize) -> (name: &String)
        requires
            i < self.names().len(),
        ensures
            name@ == self.names()[i as int],
    {
        &self.entries[i].0
    }

    /// The value at index `i`.
    pub fn value_at(&self, i: usize) -> (value: &V)
        requires
            i < self.values().len(),
        ensures
            *value == self.values()[i as int],
    {
        &self.entries[i].1
    }

    /// The value at index `i`, to be changed in place.
    pub fn value_at_mut(&mut self, i: usize) -> (value: &mut V)
        requires
            i < old(self).values().len(),
        ensures
            *value == old(self).values()[i as int],
            final(self).names() == old(self).names(),
            final(self).values() == old(self).values().update(i as int, *final(value)),
    {
        &mut self.entries[i].1
    }

    /// The value under `name`.
    pub fn get(&self, name: &str) -> (r: Option<&V>)
        requires
            self.wf(),
        ensures
            match r {
                Some(value) => self.has(name@) && *value == self.value_of(name@),
                None => !self.has(name@),
            },
    {
        match self.position(name) {
            Some(i) => Some(&self.entries[i].1),
            None => None,
        }
    }

    /// Puts `value` under `name`: in place of the value that was there,
    /// which is returned, or behind all other names.
    pub fn insert(&mut self, name: String, value: V) -> (r: Option<V>)
        requires
            old(self).wf(),
        ensures
            final(self).wf(),
            final(self).has(name@),
            final(self).value_of(name@) == value,
            match r {
                Some(previous) => {
                    &&& old(self).has(name@)
                    &&& previous == old(self).value_of(name@)
                    &&& final(self).names() == old(self).names()
                    &&& final(self).values() == old(self).values().update(
                        old(self).index_of(name@),
                        value,
                    )
                },
                None => {
                    &&& !old(self).has(name@)
                    &&& final(self).names() == old(self).names().push(name@)
                    &&& final(self).values() == old(self).values().push(value)
                },
            },
    {
        match self.position(name.as_str()) {
            Some(i) => {
                let (_, previous) = self.entries.remove(i);
                self.entries.insert(i, (name, value));
                proof {
                    assert(self.names() =~= old(self).names());
                }
                Some(previous)
            },
            None => {
                self.entries.push((name, value));
                proof {
                    assert(self.names() =~= old(self).names().push(name@));
                    assert(forall|i: int, j: int|
                        0 <= i < j < self.names().len() ==> self.names()[i] != self.names()[j]);
                    self.lemma_index_of(name@, self.names().len() - 1);
                }
                None
            },
        }
    }

    /// Takes `name` and its value out of the table.
    pub fn remove(&mut self, name: &str) -> (r: Option<V>)
        requires
            old(self).wf(),
        ensures
            final(self).wf(),
            !final(self).has(name@),
            match r {
                Some(value) => {
                    &&& old(self).has(name@)
                    &&& value == old(self).value_of(name@)
                    &&& final(self).names() == old(self).names().remove(old(self).index_of(name@))
                    &&& final(self).values() == old(self).values().remove(
                        old(self).index_of(name@),
                    )
                },
                None => {
                    &&& !old(self).has(name@)
                    &&& final(self).names() == old(self).names()
                    &&& final(self).values() == old(self).values()
                },
            },
    {
        match self.position(name) {
            Some(i) => {
                let (_, value) = self.entries.remove(i);
                proof {
                    assert(self.names() =~= old(self).names().remove(i as int));
                    if self.names().contains(name@) {
                        let k = self.names().index_of(name@);
                        if k < i {
                            assert(old(self).names()[k] == name@);
                        } else {
                            assert(old(self).names()[k + 1] == name@);
                        }
                    }
                }
                Some(value)
            },
            None => None,
        }
    }

    /// The names, in the order they were inserted.
    pub fn keys(&self) -> (names: Vec<String>)
        ensures
            names@.len() == self.names().len(),
            forall|i: int| 0 <= i < names@.len() ==> (#[trigger] names@[i])@ == self.names()[i],
    {
        let mut names: Vec<String> = Vec::new();
        let mut i: usize = 0;
        while i < self.entries.len()
            invariant
                i <= self.entries@.len(),
                names@.len() == i,
                forall|k: int| 0 <= k < i ==> (#[trigger] names@[k])@ == self.names()[k],
            decreases self.entries@.len() - i,
        {
            names.push(self.entries[i].0.clone());
            i += 1;
        }
        names
    }
}

} // verus!
