//! The registry: for each project, the identifiers of the blobs that the remote backend
//! is believed to hold, and how one indexing run renews that list.

use crate::blob::{Blob, BlobView};
use crate::config::clone_list;
use crate::digest::{all_hashable, identifiers, identifiers_of};
use crate::path::{normalize_separators, normalized_path};
use crate::text_map::TextMap;
use vstd::prelude::*;

verus! {

/// The registry of all projects, keyed by the project's root.
pub struct ProjectRegistry {
    pub projects: TextMap<Vec<String>>,
}

impl ProjectRegistry {
    /// The registry's map holds no key twice.
    pub open spec fn wf(self) -> bool {
        self.projects.wf()
    }

    /// The identifiers kept under `key`: the stored list, or none.
    pub open spec fn names_of(self, key: Seq<char>) -> Seq<Seq<char>> {
        if self.projects.contains(key) {
            self.projects.value_of(key).deep_view()
        } else {
            Seq::empty()
        }
    }

    /// The registry without any project.
    pub fn new() -> (registry: ProjectRegistry)
        ensures
            registry.wf(),
            forall|key: Seq<char>| !registry.projects.contains(key),
    {
        let registry = ProjectRegistry { projects: TextMap::new() };
        assert forall|key: Seq<char>| !registry.projects.contains(key) by {
            if registry.projects.contains(key) {
                assert(registry.projects.view().contains_key(key));
            }
        }
        registry
    }

    /// The identifiers of the project whose canonical root is `canonical_root`.
    pub fn blob_names(&self, canonical_root: &str) -> (names: Vec<String>)
        requires
            self.wf(),
        ensures
            names.deep_view() == self.names_of(normalized_path(canonical_root@)),
    {
        let key = normalize_separators(canonical_root);
        match self.projects.get(key.as_str()) {
            Some(stored) => clone_list(stored),
            None => {
                let names: Vec<String> = Vec::new();
                assert(names.deep_view() =~= Seq::<Seq<char>>::empty());
                names
            },
        }
    }

    /// Replaces the identifiers of the project whose canonical root is `canonical_root`.
    pub fn set_blob_names(&mut self, canonical_root: &str, names: Vec<String>)
        requires
            old(self).wf(),
        ensures
            final(self).wf(),
            final(self).projects.contains(normalized_path(canonical_root@)),
            final(self).names_of(normalized_path(canonical_root@)) == names.deep_view(),
            forall|other: Seq<char>|
                other != normalized_path(canonical_root@) ==> final(self).projects.contains(other)
                    == old(self).projects.contains(other) && final(self).names_of(other) == old(
                    self,
                ).names_of(other),
    {
        let key = normalize_separators(canonical_root);
        self.projects.insert(key, names);
    }
}

/// Whether no later item of `ids` equals the one at `k`.
pub open spec fn is_last_occurrence(ids: Seq<Seq<char>>, k: int) -> bool {
    forall|j: int| k < j < ids.len() ==> ids[j] != ids[k]
}

/// Whether the blob at `k` is already registered: its identifier is in `registry`, and
/// no later blob has the same identifier.
pub open spec fn is_known(ids: Seq<Seq<char>>, registry: Seq<Seq<char>>, k: int) -> bool {
    is_last_occurrence(ids, k) && registry.contains(ids[k])
}

/// Whether the blob at `k` is to be uploaded: its identifier is not in `registry`, and
/// no later blob has the same identifier.
pub open spec fn is_new(ids: Seq<Seq<char>>, registry: Seq<Seq<char>>, k: int) -> bool {
    is_last_occurrence(ids, k) && !registry.contains(ids[k])
}

/// The identifiers among the first `n` of `ids` whose blobs are already registered, in
/// their order.
pub open spec fn known_ids(ids: Seq<Seq<char>>, registry: Seq<Seq<char>>, n: nat) -> Seq<
    Seq<char>,
>
    decreases n,
{
    if n == 0 {
        Seq::empty()
    } else if is_known(ids, registry, n - 1) {
        known_ids(ids, registry, (n - 1) as nat).push(ids[n - 1])
    } else {
        known_ids(ids, registry, (n - 1) as nat)
    }
}

/// The blobs among the first `n` of `blobs` that are to be uploaded, in their order.
pub open spec fn new_blobs(blobs: Seq<BlobView>, registry: Seq<Seq<char>>, n: nat) -> Seq<
    BlobView,
>
    decreases n,
{
    if n == 0 {
        Seq::empty()
    } else if is_new(identifiers_of(blobs), registry, n - 1) {
        new_blobs(blobs, registry, (n - 1) as nat).push(blobs[n - 1])
    } else {
        new_blobs(blobs, registry, (n - 1) as nat)
    }
}

/// The identifiers that a run keeps from the registry: those of the collected blobs
/// that the registry holds, each once.
pub open spec fn existing_ids(blobs: Seq<BlobView>, registry: Seq<Seq<char>>) -> Seq<Seq<char>> {
    known_ids(identifiers_of(blobs), registry, blobs.len())
}

/// The blobs that a run uploads: the collected blobs whose identifiers the registry
/// lacks, one for each identifier.
pub open spec fn blobs_to_upload(blobs: Seq<BlobView>, registry: Seq<Seq<char>>) -> Seq<BlobView> {
    new_blobs(blobs, registry, blobs.len())
}

/// What a run keeps and what it uploads.
pub struct UploadPlan {
    pub existing: Vec<String>,
    pub new_blobs: Vec<Blob>,
}

/// Whether `names` holds `name`.
pub fn contains_name(names: &Vec<String>, name: &String) -> (found: bool)
    ensures
        found == names.deep_view().contains(name@),
{
    let mut i: usize = 0;
    while i < names.len()
        invariant
            i <= names@.len(),
            forall|k: int| 0 <= k < i ==> names@[k]@ != name@,
        decreases names@.len() - i,
    {
        if names[i] == *name {
            assert(names.deep_view()[i as int] == name@);
            return true;
        }
        i += 1;
    }
    assert forall|k: int| 0 <= k < names.deep_view().len() implies names.deep_view()[k]
        != name@ by {
        assert(names.deep_view()[k] == names@[k]@);
    }
    false
}

/// Whether no item of `ids` after place `k` equals the one at `k`.
fn last_occurrence(ids: &Vec<String>, k: usize) -> (last: bool)
    requires
        k < ids@.len(),
    ensures
        last == is_last_occurrence(ids.deep_view(), k as int),
{
    let n = ids.len();
    let mut j: usize = k + 1;
    while j < n
        invariant
            n == ids@.len(),
            k < j <= n,
            forall|m: int| k < m < j ==> ids@[m]@ != ids@[k as int]@,
        decreases n - j,
    {
        if ids[j] == ids[k] {
            assert(ids.deep_view()[j as int] == ids.deep_view()[k as int]);
            return false;
        }
        j += 1;
    }
    assert forall|m: int| k < m < ids.deep_view().len() implies ids.deep_view()[m]
        != ids.deep_view()[k as int] by {
        assert(ids.deep_view()[m] == ids@[m]@);
    }
    true
}

/// Parts the collected blobs by the registry: the identifiers that stay, and the blobs
/// whose identifiers the registry lacks.
pub fn plan_upload(blobs: &Vec<Blob>, registry: &Vec<String>) -> (plan: UploadPlan)
    requires
        all_hashable(blobs.deep_view()),
    ensures
        plan.existing.deep_view() == existing_ids(blobs.deep_view(), registry.deep_view()),
        plan.new_blobs.deep_view() == blobs_to_upload(blobs.deep_view(), registry.deep_view()),
{
    let ids = identifiers(blobs);
    let mut existing: Vec<String> = Vec::new();
    let mut fresh: Vec<Blob> = Vec::new();
    let mut k: usize = 0;
    assert(existing.deep_view() =~= Seq::<Seq<char>>::empty());
    assert(fresh.deep_view() =~= Seq::<BlobView>::empty());
    assert(ids.deep_view().len() == ids@.len());
    assert(blobs.deep_view().len() == blobs@.len());
    while k < blobs.len()
        invariant
            k <= blobs@.len(),
            ids@.len() == blobs@.len(),
            ids.deep_view() == identifiers_of(blobs.deep_view()),
            existing.deep_view() == known_ids(ids.deep_view(), registry.deep_view(), k as nat),
            fresh.deep_view() == new_blobs(blobs.deep_view(), registry.deep_view(), k as nat),
        decreases blobs@.len() - k,
    {
        let ghost kept = existing.deep_view();
        let ghost sent = fresh.deep_view();
        assert(ids.deep_view()[k as int] == ids@[k as int]@);
        assert(blobs.deep_view()[k as int] == blobs@[k as int]@);
        if last_occurrence(&ids, k) {
            if contains_name(registry, &ids[k]) {
                existing.push(ids[k].clone());
                assert(existing.deep_view() =~= kept.push(ids@[k as int]@));
            } else {
                fresh.push(blobs[k].duplicate());
                assert(fresh.deep_view() =~= sent.push(blobs@[k as int]@));
            }
        }
        k += 1;
    }
    UploadPlan { existing, new_blobs: fresh }
}

/// What `known_ids` holds: exactly the identifiers of registered blobs among the first
/// `n`, and none twice.
pub proof fn lemma_known_ids(ids: Seq<Seq<char>>, registry: Seq<Seq<char>>, n: nat)
    requires
        n <= ids.len(),
    ensures
        forall|id: Seq<char>| #[trigger]
            known_ids(ids, registry, n).contains(id) <==> exists|k: int|
                0 <= k < n && is_known(ids, registry, k) && ids[k] == id,
        known_ids(ids, registry, n).no_duplicates(),
    decreases n,
{
    if n > 0 {
        let before = known_ids(ids, registry, (n - 1) as nat);
        let now = known_ids(ids, registry, n);
        lemma_known_ids(ids, registry, (n - 1) as nat);
        assert forall|id: Seq<char>| #[trigger]
            now.contains(id) <==> exists|k: int|
                0 <= k < n && is_known(ids, registry, k) && ids[k] == id by {
            if now.contains(id) {
                let i = choose|i: int| 0 <= i < now.len() && now[i] == id;
                if i < before.len() {
                    assert(before[i] == id);
                    assert(before.contains(id));
                } else {
                    assert(is_known(ids, registry, n - 1) && ids[n - 1] == id);
                }
            }
            if exists|k: int| 0 <= k < n && is_known(ids, registry, k) && ids[k] == id {
                let k = choose|k: int| 0 <= k < n && is_known(ids, registry, k) && ids[k] == id;
                if k < n - 1 {
                    assert(before.contains(id));
                    let i = choose|i: int| 0 <= i < before.len() && before[i] == id;
                    assert(now[i] == id);
                } else {
                    assert(now[now.len() - 1] == id);
                }
            }
        }
        if is_known(ids, registry, n - 1) {
            if before.contains(ids[n - 1]) {
                let k = choose|k: int|
                    0 <= k < n - 1 && is_known(ids, registry, k) && ids[k] == ids[n - 1];
                assert(false);
            }
            assert forall|i: int, j: int| 0 <= i < now.len() && 0 <= j < now.len() && i
                != j implies now[i] != now[j] by {
                if i < before.len() && j < before.len() {
                    assert(before[i] != before[j]);
                } else if i < before.len() {
                    assert(before.contains(before[i]));
                } else {
                    assert(before.contains(before[j]));
                }
            }
        }
    }
}

/// What `new_blobs` holds: exactly the blobs to upload among the first `n`.
pub proof fn lemma_new_blobs(blobs: Seq<BlobView>, registry: Seq<Seq<char>>, n: nat)
    requires
        n <= blobs.len(),
    ensures
        forall|blob: BlobView| #[trigger]
            new_blobs(blobs, registry, n).contains(blob) <==> exists|k: int|
                0 <= k < n && is_new(identifiers_of(blobs), registry, k) && blobs[k] == blob,
        identifiers_of(new_blobs(blobs, registry, n)).no_duplicates(),
        new_blobs(blobs, registry, n).len() <= n,
    decreases n,
{
    let ids = identifiers_of(blobs);
    if n > 0 {
        let before = new_blobs(blobs, registry, (n - 1) as nat);
        let now = new_blobs(blobs, registry, n);
        lemma_new_blobs(blobs, registry, (n - 1) as nat);
        assert forall|blob: BlobView| #[trigger]
            now.contains(blob) <==> exists|k: int|
                0 <= k < n && is_new(ids, registry, k) && blobs[k] == blob by {
            if now.contains(blob) {
                let i = choose|i: int| 0 <= i < now.len() && now[i] == blob;
                if i < before.len() {
                    assert(before[i] == blob);
                    assert(before.contains(blob));
                } else {
                    assert(is_new(ids, registry, n - 1) && blobs[n - 1] == blob);
                }
            }
            if exists|k: int| 0 <= k < n && is_new(ids, registry, k) && blobs[k] == blob {
                let k = choose|k: int| 0 <= k < n && is_new(ids, registry, k) && blobs[k] == blob;
                if k < n - 1 {
                    assert(before.contains(blob));
                    let i = choose|i: int| 0 <= i < before.len() && before[i] == blob;
                    assert(now[i] == blob);
                } else {
                    assert(now[now.len() - 1] == blob);
                }
            }
        }
        if is_new(ids, registry, n - 1) {
            let before_ids = identifiers_of(before);
            let now_ids = identifiers_of(now);
            assert forall|i: int, j: int| 0 <= i < now_ids.len() && 0 <= j < now_ids.len() && i
                != j implies now_ids[i] != now_ids[j] by {
                if i < before.len() && j < before.len() {
                    assert(before_ids[i] != before_ids[j]);
                } else {
                    let m = if i < before.len() { i } else { j };
                    assert(before.contains(before[m]));
                    let k = choose|k: int|
                        0 <= k < n - 1 && is_new(ids, registry, k) && blobs[k] == before[m];
                    assert(ids[k] == before_ids[m]);
                    assert(ids[k] != ids[n - 1]);
                }
            }
        }
    }
}

/// A run keeps from the registry exactly the identifiers that a collected blob still
/// has, and uploads exactly the blobs whose identifiers the registry lacks. An
/// identifier of the registry that no collected blob has is in neither list: it is
/// dropped.
pub proof fn registry_pruning(blobs: Seq<BlobView>, registry: Seq<Seq<char>>)
    ensures
        forall|id: Seq<char>| #[trigger]
            existing_ids(blobs, registry).contains(id) <==> identifiers_of(blobs).contains(id)
                && registry.contains(id),
        forall|id: Seq<char>| #[trigger]
            identifiers_of(blobs_to_upload(blobs, registry)).contains(id) <==> identifiers_of(
                blobs,
            ).contains(id) && !registry.contains(id),
        existing_ids(blobs, registry).no_duplicates(),
        identifiers_of(blobs_to_upload(blobs, registry)).no_duplicates(),
{
    let ids = identifiers_of(blobs);
    let n = blobs.len();
    lemma_known_ids(ids, registry, n);
    lemma_new_blobs(blobs, registry, n);
    let sent = blobs_to_upload(blobs, registry);
    assert forall|id: Seq<char>| #[trigger]
        existing_ids(blobs, registry).contains(id) <==> ids.contains(id) && registry.contains(
            id,
        ) by {
        if ids.contains(id) && registry.contains(id) {
            let k = lemma_last_occurrence_exists(ids, id);
            assert(is_known(ids, registry, k));
        }
    }
    assert forall|id: Seq<char>| #[trigger]
        identifiers_of(sent).contains(id) <==> ids.contains(id) && !registry.contains(id) by {
        if identifiers_of(sent).contains(id) {
            let i = choose|i: int| 0 <= i < sent.len() && identifiers_of(sent)[i] == id;
            assert(sent.contains(sent[i]));
            let k = choose|k: int| 0 <= k < n && is_new(ids, registry, k) && blobs[k] == sent[i];
            assert(ids[k] == id);
        }
        if ids.contains(id) && !registry.contains(id) {
            let k = lemma_last_occurrence_exists(ids, id);
            assert(is_new(ids, registry, k));
            assert(sent.contains(blobs[k]));
            let i = choose|i: int| 0 <= i < sent.len() && sent[i] == blobs[k];
            assert(identifiers_of(sent)[i] == id);
        }
    }
}

/// An identifier that occurs in `ids` has a last occurrence.
pub proof fn lemma_last_occurrence_exists(ids: Seq<Seq<char>>, id: Seq<char>) -> (k: int)
    requires
        ids.contains(id),
    ensures
        0 <= k < ids.len(),
        ids[k] == id,
        is_last_occurrence(ids, k),
    decreases ids.len(),
{
    let last = ids.len() - 1;
    if ids[last] == id {
        last
    } else {
        let i = choose|i: int| 0 <= i < ids.len() && ids[i] == id;
        assert(ids.drop_last()[i] == id);
        let k = lemma_last_occurrence_exists(ids.drop_last(), id);
        assert forall|j: int| k < j < ids.len() implies ids[j] != ids[k] by {
            if j < last {
                assert(ids.drop_last()[j] != ids.drop_last()[k]);
            }
        }
        k
    }
}

} // verus!
