//! The guard that lets no two indexing runs of one project go on at the same time.

use crate::path::{normalize_separators, normalized_path};
use vstd::prelude::*;

verus! {

/// The projects that have a run in flight.
pub struct RunGuard {
    running: Vec<String>,
}

impl RunGuard {
    /// No project is listed twice.
    pub closed spec fn wf(self) -> bool {
        forall|i: int, j: int|
            0 <= i < j < self.running@.len() ==> self.running@[i]@ != self.running@[j]@
    }

    /// Whether the project kept under `key` has a run in flight.
    pub closed spec fn is_running(self, key: Seq<char>) -> bool {
        exists|i: int| 0 <= i < self.running@.len() && (#[trigger] self.running@[i])@ == key
    }

    /// The number of projects with a run in flight.
    pub closed spec fn count(self) -> nat {
        self.running@.len()
    }

    /// The guard of an agent that runs nothing yet.
    pub fn new() -> (guard: RunGuard)
        ensures
            guard.wf(),
            guard.count() == 0,
            forall|key: Seq<char>| !guard.is_running(key),
    {
        RunGuard { running: Vec::new() }
    }

    /// The place of the project kept under `key`, if a run of it is in flight.
    fn find(&self, key: &String) -> (place: Option<usize>)
        ensures
            place is Some <==> self.is_running(key@),
            place matches Some(i) ==> i < self.running@.len() && self.running@[i as int]@ == key@,
    {
        let mut i: usize = 0;
        while i < self.running.len()
            invariant
                i <= self.running@.len(),
                forall|k: int| 0 <= k < i ==> self.running@[k]@ != key@,
            decreases self.running@.len() - i,
        {
            if self.running[i] == *key {
                return Some(i);
            }
            i += 1;
        }
        None
    }

    /// Whether a run of the project whose canonical root is `canonical_root` is in
    /// flight.
    pub fn has_run(&self, canonical_root: &str) -> (running: bool)
        ensures
            running == self.is_running(normalized_path(canonical_root@)),
    {
        let key = normalize_separators(canonical_root);
        self.find(&key).is_some()
    }

    /// Asks to begin a run of the project whose canonical root is `canonical_root`. The
    /// run may begin where none of that project is in flight, and is in flight from
    /// then on; where one is, nothing changes.
    pub fn try_begin(&mut self, canonical_root: &str) -> (begun: bool)
        requires
            old(self).wf(),
        ensures
            final(self).wf(),
            begun == !old(self).is_running(normalized_path(canonical_root@)),
            final(self).is_running(normalized_path(canonical_root@)),
            forall|other: Seq<char>|
                other != normalized_path(canonical_root@) ==> final(self).is_running(other) == old(
                    self,
                ).is_running(other),
            final(self).count() == old(self).count() + if begun {
                1nat
            } else {
                0nat
            },
    {
        let key = normalize_separators(canonical_root);
        match self.find(&key) {
            Some(_) => false,
            None => {
                let ghost before = self.running@;
                self.running.push(key);
                proof {
                    let after = self.running@;
                    assert(after[before.len() as int]@ == key@);
                    assert forall|other: Seq<char>|
                        other != key@ implies self.is_running(other) == old(self).is_running(
                            other,
                        ) by {
                        if old(self).is_running(other) {
                            let i = choose|i: int|
                                0 <= i < before.len() && (#[trigger] before[i])@ == other;
                            assert(after[i]@ == other);
                        }
                        if self.is_running(other) {
                            let i = choose|i: int|
                                0 <= i < after.len() && (#[trigger] after[i])@ == other;
                            assert(before[i]@ == other);
                        }
                    }
                }
                true
            },
        }
    }

    /// Notes that the run of the project whose canonical root is `canonical_root` is
    /// over.
    pub fn finish(&mut self, canonical_root: &str)
        requires
            old(self).wf(),
        ensures
            final(self).wf(),
            !final(self).is_running(normalized_path(canonical_root@)),
            forall|other: Seq<char>|
                other != normalized_path(canonical_root@) ==> final(self).is_running(other) == old(
                    self,
                ).is_running(other),
    {
        let key = normalize_separators(canonical_root);
        match self.find(&key) {
            None => {},
            Some(place) => {
                let ghost before = self.running@;
                self.running.remove(place);
                proof {
                    let after = self.running@;
                    assert(after =~= before.remove(place as int));
                    assert forall|i: int| 0 <= i < after.len() implies (#[trigger] after[i])@
                        != key@ by {
                        if i < place {
                            assert(after[i] == before[i]);
                        } else {
                            assert(after[i] == before[i + 1]);
                        }
                    }
                    assert forall|other: Seq<char>|
                        other != key@ implies self.is_running(other) == old(self).is_running(
                            other,
                        ) by {
                        if old(self).is_running(other) {
                            let i = choose|i: int|
                                0 <= i < before.len() && (#[trigger] before[i])@ == other;
                            if i < place {
                                assert(after[i]@ == other);
                            } else {
                                assert(after[i - 1]@ == other);
                            }
                        }
                        if self.is_running(other) {
                            let i = choose|i: int|
                                0 <= i < after.len() && (#[trigger] after[i])@ == other;
                            if i < place {
                                assert(before[i]@ == other);
                            } else {
                                assert(before[i + 1]@ == other);
                            }
                        }
                    }
                    assert forall|i: int, j: int| 0 <= i < j < after.len() implies after[i]@
                        != after[j]@ by {
                        let a = if i < place { i } else { i + 1 };
                        let b = if j < place { j } else { j + 1 };
                        assert(after[i] == before[a]);
                        assert(after[j] == before[b]);
                    }
                }
            },
        }
    }
}

} // verus!
