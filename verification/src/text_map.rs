//! A map keyed by text, kept as a list of entries in which no key occurs twice and in
//! which an entry keeps its place once it is there.

use vstd::prelude::*;

verus! {

/// One key with its value.
pub struct TextEntry<V> {
    pub key: String,
    pub value: V,
}

/// A map from text to `V`.
pub struct TextMap<V> {
    entries: Vec<TextEntry<V>>,
}

impl<V> TextMap<V> {
    /// No key occurs twice.
    pub closed spec fn wf(self) -> bool {
        forall|i: int, j: int|
            0 <= i < j < self.entries@.len() ==> self.entries@[i].key@ != self.entries@[j].key@
    }

    /// The entries in the order in which their keys came.
    pub closed spec fn entries(self) -> Seq<TextEntry<V>> {
        self.entries@
    }

    /// Whether `key` has a value.
    pub open spec fn contains(self, key: Seq<char>) -> bool {
        exists|i: int| 0 <= i < self.entries().len() && #[trigger] self.entries()[i].key@ == key
    }

    /// The place of `key` among the entries.
    pub open spec fn place_of(self, key: Seq<char>) -> int {
        choose|i: int| 0 <= i < self.entries().len() && #[trigger] self.entries()[i].key@ == key
    }

    /// The value of `key`, which the map contains.
    pub open spec fn value_of(self, key: Seq<char>) -> V {
        self.entries()[self.place_of(key)].value
    }

    /// The map as a mathematical map.
    pub open spec fn view(self) -> Map<Seq<char>, V> {
        Map::new(|key: Seq<char>| self.contains(key), |key: Seq<char>| self.value_of(key))
    }

    /// The empty map.
    pub fn new() -> (map: TextMap<V>)
        ensures
            map.wf(),
            map.entries() == Seq::<TextEntry<V>>::empty(),
            map.view() == Map::<Seq<char>, V>::empty(),
    {
        let map = TextMap { entries: Vec::new() };
        assert(map.view() =~= Map::<Seq<char>, V>::empty());
        map
    }

    /// The number of keys.
    pub fn len(&self) -> (n: usize)
        ensures
            n == self.entries().len(),
    {
        self.entries.len()
    }

    /// The entry at place `i`.
    pub fn entry(&self, i: usize) -> (entry: &TextEntry<V>)
        requires
            self.wf(),
            i < self.entries().len(),
        ensures
            *entry == self.entries()[i as int],
            self.contains(entry.key@),
            self.value_of(entry.key@) == entry.value,
    {
        &self.entries[i]
    }

    /// The place of `key`, if the map contains it.
    pub fn find(&self, key: &str) -> (place: Option<usize>)
        requires
            self.wf(),
        ensures
            place is Some <==> self.contains(key@),
            place matches Some(i) ==> i < self.entries().len() && self.entries()[i as int].key@
                == key@ && self.place_of(key@) == i,
    {
        let mut i: usize = 0;
        while i < self.entries.len()
            invariant
                self.wf(),
                i <= self.entries@.len(),
                forall|k: int| 0 <= k < i ==> self.entries@[k].key@ != key@,
            decreases self.entries@.len() - i,
        {
            if crate::text::same_text(self.entries[i].key.as_str(), key) {
                return Some(i);
            }
            i += 1;
        }
        None
    }

    /// The value of `key`, if the map contains it.
    pub fn get(&self, key: &str) -> (value: Option<&V>)
        requires
            self.wf(),
        ensures
            value is Some <==> self.contains(key@),
            value matches Some(v) ==> *v == self.value_of(key@),
    {
        match self.find(key) {
            Some(i) => Some(&self.entries[i].value),
            None => None,
        }
    }

    /// Gives `key` the value `value`: in place where the map contains the key, at the end
    /// where it does not.
    pub fn insert(&mut self, key: String, value: V)
        requires
            old(self).wf(),
        ensures
            final(self).wf(),
            final(self).view() == old(self).view().insert(key@, value),
            final(self).contains(key@),
            final(self).value_of(key@) == value,
            forall|other: Seq<char>|
                other != key@ ==> final(self).contains(other) == old(self).contains(other),
            forall|other: Seq<char>|
                other != key@ && old(self).contains(other) ==> final(self).value_of(other) == old(
                    self,
                ).value_of(other),
            old(self).contains(key@) ==> final(self).entries() == old(self).entries().update(
                old(self).place_of(key@),
                TextEntry { key, value },
            ),
            !old(self).contains(key@) ==> final(self).entries() == old(self).entries().push(
                TextEntry { key, value },
            ),
    {
        let ghost before = *self;
        match self.find(key.as_str()) {
            Some(i) => {
                self.entries.set(i, TextEntry { key, value });
                proof {
                    let after = *self;
                    assert forall|other: Seq<char>| after.contains(other) == (other == key@
                        || before.contains(other)) by {
                        if before.contains(other) {
                            let p = before.place_of(other);
                            assert(after.entries()[p].key@ == other);
                        }
                        if after.contains(other) {
                            let p = after.place_of(other);
                            assert(before.entries()[p].key@ == other);
                        }
                        if other == key@ {
                            assert(after.entries()[i as int].key@ == other);
                        }
                    }
                    assert forall|other: Seq<char>| after.contains(other) implies after.value_of(
                        other,
                    ) == (if other == key@ {
                        value
                    } else {
                        before.value_of(other)
                    }) by {
                        let p = after.place_of(other);
                        if other == key@ {
                            assert(p == i);
                        } else {
                            assert(before.entries()[p].key@ == other);
                            assert(before.place_of(other) == p);
                        }
                    }
                    assert(after.view() =~= before.view().insert(key@, value));
                }
            },
            None => {
                self.entries.push(TextEntry { key, value });
                proof {
                    let after = *self;
                    let last = before.entries().len() as int;
                    assert forall|other: Seq<char>| after.contains(other) == (other == key@
                        || before.contains(other)) by {
                        if before.contains(other) {
                            let p = before.place_of(other);
                            assert(after.entries()[p].key@ == other);
                        }
                        if after.contains(other) {
                            let p = after.place_of(other);
                            if p < last {
                                assert(before.entries()[p].key@ == other);
                            }
                        }
                        if other == key@ {
                            assert(after.entries()[last].key@ == other);
                        }
                    }
                    assert forall|other: Seq<char>| after.contains(other) implies after.value_of(
                        other,
                    ) == (if other == key@ {
                        value
                    } else {
                        before.value_of(other)
                    }) by {
                        let p = after.place_of(other);
                        if other == key@ {
                            assert(after.entries()[last].key@ == other);
                            assert(p == last);
                        } else {
                            assert(before.entries()[p].key@ == other);
                            assert(before.place_of(other) == p);
                        }
                    }
                    assert(after.view() =~= before.view().insert(key@, value));
                }
            },
        }
    }
}

} // verus!
