//! The index status of each project: the stored record, the changes that an indexing run
//! makes to it, and the state that a search derives from it.

use crate::path::{normalize_separators, normalized_path};
use crate::text_map::TextMap;
use vstd::prelude::*;

verus! {

/// Where a project's index stands.
#[derive(Clone, Copy, Debug, PartialEq, Eq, Structural)]
pub enum IndexStatus {
    /// No run has touched the project.
    Idle,
    /// A run is in progress.
    Indexing,
    /// The last run succeeded.
    Synced,
    /// The last run failed.
    Failed,
}

/// A point in time: the seconds since the Unix epoch, and the nanoseconds into that second.
#[derive(Clone, Copy, Debug, PartialEq, Eq, Structural)]
pub struct Timestamp {
    pub seconds: i64,
    pub nanos: u32,
}

/// The status record of one project.
pub struct ProjectIndexStatus {
    pub project_root: String,
    pub status: IndexStatus,
    pub progress: u8,
    pub total_files: usize,
    pub indexed_files: usize,
    pub pending_files: usize,
    pub last_error: Option<String>,
    pub last_success_time: Option<Timestamp>,
    pub last_failure_time: Option<Timestamp>,
}

/// The mathematical value of a [`ProjectIndexStatus`].
pub struct StatusView {
    pub project_root: Seq<char>,
    pub status: IndexStatus,
    pub progress: u8,
    pub total_files: usize,
    pub indexed_files: usize,
    pub pending_files: usize,
    pub last_error: Option<Seq<char>>,
    pub last_success_time: Option<Timestamp>,
    pub last_failure_time: Option<Timestamp>,
}

impl View for ProjectIndexStatus {
    type V = StatusView;

    open spec fn view(&self) -> StatusView {
        StatusView {
            project_root: self.project_root@,
            status: self.status,
            progress: self.progress,
            total_files: self.total_files,
            indexed_files: self.indexed_files,
            pending_files: self.pending_files,
            last_error: match self.last_error {
                Some(e) => Some(e@),
                None => None,
            },
            last_success_time: self.last_success_time,
            last_failure_time: self.last_failure_time,
        }
    }
}

/// A change that an indexing run makes to the status record of its project.
pub enum StatusChange {
    /// The run has begun.
    Started,
    /// The project's files have been collected into this many blobs.
    Collected { total_files: usize },
    /// The run has failed with this message at this time.
    Failed { error: String, at: Timestamp },
    /// The run has succeeded at this time, with this many blobs collected.
    Synced { indexed_files: usize, at: Timestamp },
}

/// The mathematical value of a [`StatusChange`].
pub enum StatusChangeView {
    Started,
    Collected { total_files: usize },
    Failed { error: Seq<char>, at: Timestamp },
    Synced { indexed_files: usize, at: Timestamp },
}

impl View for StatusChange {
    type V = StatusChangeView;

    open spec fn view(&self) -> StatusChangeView {
        match *self {
            StatusChange::Started => StatusChangeView::Started,
            StatusChange::Collected { total_files } => StatusChangeView::Collected { total_files },
            StatusChange::Failed { error, at } => StatusChangeView::Failed { error: error@, at },
            StatusChange::Synced { indexed_files, at } => StatusChangeView::Synced {
                indexed_files,
                at,
            },
        }
    }
}

/// The record of a project that no run has touched.
pub open spec fn fresh_status(project_root: Seq<char>) -> StatusView {
    StatusView {
        project_root,
        status: IndexStatus::Idle,
        progress: 0,
        total_files: 0,
        indexed_files: 0,
        pending_files: 0,
        last_error: None,
        last_success_time: None,
        last_failure_time: None,
    }
}

/// The record `before` after `change`.
pub open spec fn changed_status(before: StatusView, change: StatusChangeView) -> StatusView {
    match change {
        StatusChangeView::Started => StatusView {
            status: IndexStatus::Indexing,
            progress: 0,
            ..before
        },
        StatusChangeView::Collected { total_files } => StatusView {
            total_files,
            progress: 20,
            ..before
        },
        StatusChangeView::Failed { error, at } => StatusView {
            status: IndexStatus::Failed,
            last_error: Some(error),
            last_failure_time: Some(at),
            ..before
        },
        StatusChangeView::Synced { indexed_files, at } => StatusView {
            status: IndexStatus::Synced,
            progress: 100,
            indexed_files,
            pending_files: 0,
            last_success_time: Some(at),
            last_error: None,
            ..before
        },
    }
}

/// The progress of a record is a percentage.
pub open spec fn valid_status(status: StatusView) -> bool {
    status.progress <= 100
}

/// What a search takes the index of a project to be.
#[derive(Clone, Copy, Debug, PartialEq, Eq, Structural)]
pub enum InitialIndexState {
    /// The record says idle, yet counts files: it has been reset or lost.
    Missing,
    /// The project has never been indexed.
    Idle,
    /// The index is complete.
    Synced,
    /// A run is in progress.
    Indexing,
    /// The last run failed.
    Failed,
}

/// The state that a search derives from a stored status and its count of files.
pub open spec fn derived_state(status: IndexStatus, total_files: usize) -> InitialIndexState {
    match status {
        IndexStatus::Idle => if total_files == 0 {
            InitialIndexState::Idle
        } else {
            InitialIndexState::Missing
        },
        IndexStatus::Synced => InitialIndexState::Synced,
        IndexStatus::Indexing => InitialIndexState::Indexing,
        IndexStatus::Failed => InitialIndexState::Failed,
    }
}

/// Whether a search in this state starts an indexing run in the background.
pub open spec fn needs_background_index(state: InitialIndexState) -> bool {
    state == InitialIndexState::Missing || state == InitialIndexState::Idle || state
        == InitialIndexState::Failed
}

/// The record of a project's first run that succeeds goes from idle over indexing to
/// synced: in the end it is complete, bears the time of the success and no error, and
/// counts the blobs that were collected.
pub proof fn first_success_lifecycle(project_root: Seq<char>, blobs: usize, now: Timestamp)
    ensures
        fresh_status(project_root).status == IndexStatus::Idle,
        changed_status(fresh_status(project_root), StatusChangeView::Started).status
            == IndexStatus::Indexing,
        changed_status(
            changed_status(fresh_status(project_root), StatusChangeView::Started),
            StatusChangeView::Collected { total_files: blobs },
        ).status == IndexStatus::Indexing,
        changed_status(
            changed_status(
                changed_status(fresh_status(project_root), StatusChangeView::Started),
                StatusChangeView::Collected { total_files: blobs },
            ),
            StatusChangeView::Synced { indexed_files: blobs, at: now },
        ) == (StatusView {
            status: IndexStatus::Synced,
            progress: 100,
            total_files: blobs,
            indexed_files: blobs,
            last_success_time: Some(now),
            ..fresh_status(project_root)
        }),
{
}

/// A failure leaves the time of the last success as it was, and a success the time of
/// the last failure.
pub proof fn outcomes_keep_each_others_times(
    before: StatusView,
    error: Seq<char>,
    indexed_files: usize,
    now: Timestamp,
)
    ensures
        changed_status(before, StatusChangeView::Failed { error, at: now }).last_success_time
            == before.last_success_time,
        changed_status(
            before,
            StatusChangeView::Synced { indexed_files, at: now },
        ).last_failure_time == before.last_failure_time,
{
}

/// `chrono::Utc::now`, with the result's `timestamp` and `timestamp_subsec_nanos`: the
/// time of the call. Nothing is claimed of it. The outside function fails only where the
/// machine's clock stands before the year 1970.
#[verifier::external_body]
fn current_time() -> Timestamp {
    let now = chrono::Utc::now();
    Timestamp { seconds: now.timestamp(), nanos: now.timestamp_subsec_nanos() }
}

impl Timestamp {
    /// The time of the call.
    pub fn now() -> Timestamp {
        current_time()
    }
}

impl ProjectIndexStatus {
    /// The record of a project that no run has touched.
    pub fn new(project_root: String) -> (status: ProjectIndexStatus)
        ensures
            status@ == fresh_status(project_root@),
            valid_status(status@),
    {
        ProjectIndexStatus {
            project_root,
            status: IndexStatus::Idle,
            progress: 0,
            total_files: 0,
            indexed_files: 0,
            pending_files: 0,
            last_error: None,
            last_success_time: None,
            last_failure_time: None,
        }
    }

    /// A copy of this record.
    pub fn duplicate(&self) -> (copy: ProjectIndexStatus)
        ensures
            copy@ == self@,
    {
        ProjectIndexStatus {
            project_root: self.project_root.clone(),
            status: self.status,
            progress: self.progress,
            total_files: self.total_files,
            indexed_files: self.indexed_files,
            pending_files: self.pending_files,
            last_error: match &self.last_error {
                Some(e) => Some(e.clone()),
                None => None,
            },
            last_success_time: self.last_success_time,
            last_failure_time: self.last_failure_time,
        }
    }

    /// Makes `change` to this record.
    pub fn apply(&mut self, change: StatusChange)
        ensures
            final(self)@ == changed_status(old(self)@, change@),
            valid_status(old(self)@) ==> valid_status(final(self)@),
    {
        match change {
            StatusChange::Started => {
                self.status = IndexStatus::Indexing;
                self.progress = 0;
            },
            StatusChange::Collected { total_files } => {
                self.total_files = total_files;
                self.progress = 20;
            },
            StatusChange::Failed { error, at } => {
                self.status = IndexStatus::Failed;
                self.last_error = Some(error);
                self.last_failure_time = Some(at);
            },
            StatusChange::Synced { indexed_files, at } => {
                self.status = IndexStatus::Synced;
                self.progress = 100;
                self.indexed_files = indexed_files;
                self.pending_files = 0;
                self.last_success_time = Some(at);
                self.last_error = None;
            },
        }
    }

    /// The state that a search derives from this record.
    pub fn initial_state(&self) -> (state: InitialIndexState)
        ensures
            state == derived_state(self@.status, self@.total_files),
    {
        match self.status {
            IndexStatus::Idle => if self.total_files == 0 {
                InitialIndexState::Idle
            } else {
                InitialIndexState::Missing
            },
            IndexStatus::Synced => InitialIndexState::Synced,
            IndexStatus::Indexing => InitialIndexState::Indexing,
            IndexStatus::Failed => InitialIndexState::Failed,
        }
    }

    /// Whether no run of this project has succeeded yet.
    pub fn never_succeeded(&self) -> (never: bool)
        ensures
            never == (self@.last_success_time is None),
    {
        self.last_success_time.is_none()
    }
}

/// The status records of all projects, keyed by the project's root.
pub struct ProjectsIndexStatus {
    pub projects: TextMap<ProjectIndexStatus>,
}

impl ProjectsIndexStatus {
    /// The store's map holds no key twice.
    pub open spec fn wf(self) -> bool {
        self.projects.wf()
    }

    /// The record kept under `key`: the stored one, or that of an untouched project.
    pub open spec fn status_of(self, key: Seq<char>) -> StatusView {
        if self.projects.contains(key) {
            self.projects.value_of(key)@
        } else {
            fresh_status(key)
        }
    }

    /// The store without any record.
    pub fn new() -> (all: ProjectsIndexStatus)
        ensures
            all.wf(),
            forall|key: Seq<char>| !all.projects.contains(key),
    {
        let all = ProjectsIndexStatus { projects: TextMap::new() };
        assert forall|key: Seq<char>| !all.projects.contains(key) by {
            if all.projects.contains(key) {
                assert(all.projects.view().contains_key(key));
            }
        }
        all
    }
}

/// The record of the project whose canonical root is `canonical_root`: the stored one,
/// or that of an untouched project.
pub fn get_project_status(all: &ProjectsIndexStatus, canonical_root: &str) -> (status:
    ProjectIndexStatus)
    requires
        all.wf(),
    ensures
        status@ == all.status_of(normalized_path(canonical_root@)),
{
    let key = normalize_separators(canonical_root);
    match all.projects.get(key.as_str()) {
        Some(stored) => stored.duplicate(),
        None => ProjectIndexStatus::new(key),
    }
}

/// Makes `change` to the record of the project whose canonical root is `canonical_root`,
/// starting from the record of an untouched project where the store has none.
pub fn update_project_status(
    all: &mut ProjectsIndexStatus,
    canonical_root: &str,
    change: StatusChange,
)
    requires
        old(all).wf(),
    ensures
        final(all).wf(),
        final(all).projects.contains(normalized_path(canonical_root@)),
        final(all).status_of(normalized_path(canonical_root@)) == changed_status(
            old(all).status_of(normalized_path(canonical_root@)),
            change@,
        ),
        forall|other: Seq<char>|
            other != normalized_path(canonical_root@) ==> final(all).projects.contains(other)
                == old(all).projects.contains(other) && final(all).status_of(other) == old(
                all,
            ).status_of(other),
{
    let mut status = get_project_status(all, canonical_root);
    status.apply(change);
    let key = normalize_separators(canonical_root);
    all.projects.insert(key, status);
}

/// The state that a search derives for the project whose canonical root is
/// `canonical_root`.
pub fn get_initial_index_state(all: &ProjectsIndexStatus, canonical_root: &str) -> (state:
    InitialIndexState)
    requires
        all.wf(),
    ensures
        state == derived_state(
            all.status_of(normalized_path(canonical_root@)).status,
            all.status_of(normalized_path(canonical_root@)).total_files,
        ),
{
    get_project_status(all, canonical_root).initial_state()
}

/// Whether an indexing run is to be started in the background for the project whose
/// canonical root is `canonical_root`: where it was never indexed, where its record was
/// reset, and where its last run failed.
pub fn ensure_initial_index_background(all: &ProjectsIndexStatus, canonical_root: &str) -> (start:
    bool)
    requires
        all.wf(),
    ensures
        start == needs_background_index(
            derived_state(
                all.status_of(normalized_path(canonical_root@)).status,
                all.status_of(normalized_path(canonical_root@)).total_files,
            ),
        ),
{
    match get_initial_index_state(all, canonical_root) {
        InitialIndexState::Missing | InitialIndexState::Idle | InitialIndexState::Failed => true,
        InitialIndexState::Synced | InitialIndexState::Indexing => false,
    }
}

} // verus!
