//! One indexing run of a project, as a machine that is handed what happened and says
//! what to do next: walk the tree, read and write the stored state, upload, and finish.
//!
//! The caller performs each action and reports back with the matching event. The run
//! itself touches nothing outside its own state.

use crate::arith::{ceil_div, div_ceil, lemma_ceil_div_covers, lemma_ceil_div_step};
use crate::blob::{Blob, BlobView};
use crate::config::{
    clone_list, clone_list_or_empty, config_error, config_error_message, effective_batch_size,
    effective_max_lines, list_or_empty, AcemcpConfig, ConfigError, ConfigView,
    DEFAULT_BATCH_SIZE, DEFAULT_MAX_LINES_PER_BLOB,
};
use crate::digest::all_hashable;
use crate::guard::RunGuard;
use crate::path::normalized_path;
use crate::registry::{blobs_to_upload, existing_ids, plan_upload};
use crate::status::{ProjectIndexStatus, StatusChange, StatusChangeView, Timestamp};
use crate::text::{decimal, decimal_text, joined};
use vstd::prelude::*;

verus! {

/// Why an indexing run ends without an index.
#[derive(Clone, Copy, Debug, PartialEq, Eq, Structural)]
pub enum IndexError {
    /// The configuration cannot be used.
    Config(ConfigError),
    /// The project's root does not exist.
    RootMissing,
    /// No file of the project is to be indexed.
    NoIndexableFiles,
    /// The run ended with no identifier at all.
    NoBlobIdentifiers,
    /// The run was handed an event that does not answer its last action.
    UnexpectedEvent,
    /// Another run of the same project is in flight.
    AlreadyRunning,
}

/// The message shown for an error of the run of the project at `project_root`.
pub open spec fn index_error_message(error: IndexError, project_root: Seq<char>) -> Seq<char> {
    match error {
        IndexError::Config(e) => config_error_message(e),
        IndexError::RootMissing => "项目根目录不存在: "@ + project_root,
        IndexError::NoIndexableFiles => "未在项目中找到可索引的文本文件"@,
        IndexError::NoBlobIdentifiers => "索引后未找到 blobs"@,
        IndexError::UnexpectedEvent => "索引流程收到了与当前步骤不符的事件"@,
        IndexError::AlreadyRunning => "该项目的索引任务正在进行中"@,
    }
}

impl IndexError {
    /// The message shown for this error of the run of the project at `project_root`.
    pub fn message(&self, project_root: &str) -> (text: String)
        ensures
            text@ == index_error_message(*self, project_root@),
    {
        match self {
            IndexError::Config(e) => e.message(),
            IndexError::RootMissing => joined("项目根目录不存在: ", project_root),
            IndexError::NoIndexableFiles => String::from_str("未在项目中找到可索引的文本文件"),
            IndexError::NoBlobIdentifiers => String::from_str("索引后未找到 blobs"),
            IndexError::UnexpectedEvent => String::from_str("索引流程收到了与当前步骤不符的事件"),
            IndexError::AlreadyRunning => String::from_str("该项目的索引任务正在进行中"),
        }
    }
}

/// What a run works with, taken from a configuration that has passed its checks.
pub struct IndexSettings {
    pub base_url: String,
    pub token: String,
    pub batch_size: usize,
    pub max_lines: usize,
    pub text_extensions: Vec<String>,
    pub exclude_patterns: Vec<String>,
}

/// The mathematical value of [`IndexSettings`].
pub struct SettingsView {
    pub base_url: Seq<char>,
    pub token: Seq<char>,
    pub batch_size: usize,
    pub max_lines: usize,
    pub text_extensions: Seq<Seq<char>>,
    pub exclude_patterns: Seq<Seq<char>>,
}

impl View for IndexSettings {
    type V = SettingsView;

    open spec fn view(&self) -> SettingsView {
        SettingsView {
            base_url: self.base_url@,
            token: self.token@,
            batch_size: self.batch_size,
            max_lines: self.max_lines,
            text_extensions: self.text_extensions.deep_view(),
            exclude_patterns: self.exclude_patterns.deep_view(),
        }
    }
}

/// The settings that a configuration without error gives.
pub open spec fn settings_of(config: ConfigView) -> SettingsView {
    SettingsView {
        base_url: config.base_url.unwrap(),
        token: config.token.unwrap(),
        batch_size: effective_batch_size(config) as usize,
        max_lines: effective_max_lines(config) as usize,
        text_extensions: list_or_empty(config.text_extensions),
        exclude_patterns: list_or_empty(config.exclude_patterns),
    }
}

/// What the remote backend made of one upload request.
pub enum UploadOutcome {
    /// The request failed for good, or the backend did not answer with success.
    Failed,
    /// The backend answered with success. `blob_names` is the list of that name in its
    /// answer, `None` where the answer holds no such list; an item is `None` where it
    /// is no string.
    Answered { blob_names: Option<Vec<Option<String>>> },
}

/// The strings among the first `n` of `items`, in their order.
pub open spec fn named_items(items: Seq<Option<String>>, n: nat) -> Seq<Seq<char>>
    decreases n,
{
    if n == 0 {
        Seq::empty()
    } else {
        match items[n - 1] {
            Some(name) => named_items(items, (n - 1) as nat).push(name@),
            None => named_items(items, (n - 1) as nat),
        }
    }
}

/// The names that an upload has brought. A batch with no name has failed.
pub open spec fn outcome_names(outcome: UploadOutcome) -> Seq<Seq<char>> {
    match outcome {
        UploadOutcome::Failed => Seq::empty(),
        UploadOutcome::Answered { blob_names: None } => Seq::empty(),
        UploadOutcome::Answered { blob_names: Some(items) } => named_items(items@, items@.len()),
    }
}

/// One upload request.
pub struct UploadBatch {
    /// The number of the batch, counted from one.
    pub number: usize,
    /// The number of batches of the run.
    pub total: usize,
    /// The address that the request goes to.
    pub url: String,
    /// The value of the request's authorization header.
    pub authorization: String,
    /// The blobs that the request carries.
    pub blobs: Vec<Blob>,
}

/// The mathematical value of an [`UploadBatch`].
pub struct BatchView {
    pub number: usize,
    pub total: usize,
    pub url: Seq<char>,
    pub authorization: Seq<char>,
    pub blobs: Seq<BlobView>,
}

impl View for UploadBatch {
    type V = BatchView;

    open spec fn view(&self) -> BatchView {
        BatchView {
            number: self.number,
            total: self.total,
            url: self.url@,
            authorization: self.authorization@,
            blobs: self.blobs.deep_view(),
        }
    }
}

/// What the caller of a run is to do next.
pub enum IndexAction {
    /// Make this change to the status record of the project.
    SetStatus(StatusChange),
    /// Walk the project's tree and collect its blobs.
    Collect { text_extensions: Vec<String>, exclude_patterns: Vec<String>, max_lines: usize },
    /// Read the project's identifiers from the registry.
    LoadRegistry,
    /// Send this upload request.
    Upload(UploadBatch),
    /// Store these identifiers as the project's entry of the registry.
    SaveRegistry(Vec<String>),
    /// Read the status record of the project.
    ReadStatus,
    /// Hand this summary note to the memory store.
    WriteNote(String),
    /// The run is over, with this result.
    Finish(Result<Vec<String>, IndexError>),
}

/// The mathematical value of an [`IndexAction`].
pub enum ActionView {
    SetStatus(StatusChangeView),
    Collect { text_extensions: Seq<Seq<char>>, exclude_patterns: Seq<Seq<char>>, max_lines: usize },
    LoadRegistry,
    Upload(BatchView),
    SaveRegistry(Seq<Seq<char>>),
    ReadStatus,
    WriteNote(Seq<char>),
    Finish(Result<Seq<Seq<char>>, IndexError>),
}

impl View for IndexAction {
    type V = ActionView;

    open spec fn view(&self) -> ActionView {
        match *self {
            IndexAction::SetStatus(change) => ActionView::SetStatus(change@),
            IndexAction::Collect { text_extensions, exclude_patterns, max_lines } => {
                ActionView::Collect {
                    text_extensions: text_extensions.deep_view(),
                    exclude_patterns: exclude_patterns.deep_view(),
                    max_lines,
                }
            },
            IndexAction::LoadRegistry => ActionView::LoadRegistry,
            IndexAction::Upload(batch) => ActionView::Upload(batch@),
            IndexAction::SaveRegistry(names) => ActionView::SaveRegistry(names.deep_view()),
            IndexAction::ReadStatus => ActionView::ReadStatus,
            IndexAction::WriteNote(text) => ActionView::WriteNote(text@),
            IndexAction::Finish(Ok(names)) => ActionView::Finish(Ok(names.deep_view())),
            IndexAction::Finish(Err(error)) => ActionView::Finish(Err(error)),
        }
    }
}

/// What has happened since the run's last action.
pub enum IndexEvent {
    /// The action has been performed, whether it succeeded or not.
    Done,
    /// The tree has been walked: these are its blobs, or `None` where the project's root
    /// does not exist.
    Collected(Option<Vec<Blob>>),
    /// The registry holds these identifiers for the project.
    Registry(Vec<String>),
    /// The upload has ended in this way.
    Uploaded(UploadOutcome),
    /// This is the status record of the project.
    Status(ProjectIndexStatus),
}

/// The action of a run that is in flight.
#[derive(Clone, Copy, Debug, PartialEq, Eq, Structural)]
pub enum IndexPhase {
    /// The status is being set to indexing.
    SettingStarted,
    /// The tree is being walked.
    Collecting,
    /// The count of collected blobs is being written to the status.
    SettingCollected,
    /// The registry is being read.
    LoadingRegistry,
    /// A batch is being uploaded.
    Uploading,
    /// The registry is being written.
    SavingRegistry,
    /// The status is being read.
    ReadingStatus,
    /// The status is being set to synced.
    SettingSynced,
    /// The summary note is being written.
    WritingNote,
    /// The status is being set to failed.
    SettingFailed,
    /// The run is over.
    Finished,
}

/// The state of one indexing run.
pub struct IndexRun {
    pub project_root: String,
    pub settings: IndexSettings,
    pub phase: IndexPhase,
    /// The blobs that were collected, until the registry has been read.
    pub blobs: Vec<Blob>,
    /// The number of blobs that were collected.
    pub collected: usize,
    /// The identifiers that the run keeps from the registry.
    pub existing: Vec<String>,
    /// The blobs that the run uploads.
    pub new_blobs: Vec<Blob>,
    /// How many of `new_blobs` have been handed out in batches.
    pub next_offset: usize,
    /// How many batches have been handed out.
    pub batches_started: usize,
    /// The names that the uploads have brought so far.
    pub uploaded: Vec<String>,
    /// The numbers of the batches that have failed.
    pub failed_batches: Vec<usize>,
    /// Whether this is the first run of the project to succeed.
    pub first_success: bool,
    /// The error that the run ends with.
    pub failure: Option<IndexError>,
}

/// The mathematical value of an [`IndexRun`].
pub struct RunView {
    pub project_root: Seq<char>,
    pub settings: SettingsView,
    pub phase: IndexPhase,
    pub blobs: Seq<BlobView>,
    pub collected: usize,
    pub existing: Seq<Seq<char>>,
    pub new_blobs: Seq<BlobView>,
    pub next_offset: usize,
    pub batches_started: usize,
    pub uploaded: Seq<Seq<char>>,
    pub failed_batches: Seq<usize>,
    pub first_success: bool,
    pub failure: Option<IndexError>,
}

impl View for IndexRun {
    type V = RunView;

    open spec fn view(&self) -> RunView {
        RunView {
            project_root: self.project_root@,
            settings: self.settings@,
            phase: self.phase,
            blobs: self.blobs.deep_view(),
            collected: self.collected,
            existing: self.existing.deep_view(),
            new_blobs: self.new_blobs.deep_view(),
            next_offset: self.next_offset,
            batches_started: self.batches_started,
            uploaded: self.uploaded.deep_view(),
            failed_batches: self.failed_batches@,
            first_success: self.first_success,
            failure: self.failure,
        }
    }
}

/// The run of the project at `project_root` as it begins.
pub open spec fn initial_run(config: ConfigView, project_root: Seq<char>) -> RunView {
    RunView {
        project_root,
        settings: settings_of(config),
        phase: IndexPhase::SettingStarted,
        blobs: Seq::empty(),
        collected: 0,
        existing: Seq::empty(),
        new_blobs: Seq::empty(),
        next_offset: 0,
        batches_started: 0,
        uploaded: Seq::empty(),
        failed_batches: Seq::empty(),
        first_success: false,
        failure: None,
    }
}

/// Where the batch that begins at `offset` ends.
pub open spec fn batch_end(offset: int, batch_size: int, count: int) -> int {
    if count - offset <= batch_size {
        count
    } else {
        offset + batch_size
    }
}

/// The address of upload requests.
pub open spec fn upload_url(base_url: Seq<char>) -> Seq<char> {
    base_url + "/batch-upload"@
}

/// The authorization header of requests.
pub open spec fn bearer(token: Seq<char>) -> Seq<char> {
    "Bearer "@ + token
}

/// The batch that a run in its uploading phase hands out next.
pub open spec fn next_batch(run: RunView) -> BatchView {
    BatchView {
        number: (run.batches_started + 1) as usize,
        total: ceil_div(run.new_blobs.len() as int, run.settings.batch_size as int) as usize,
        url: upload_url(run.settings.base_url),
        authorization: bearer(run.settings.token),
        blobs: run.new_blobs.subrange(
            run.next_offset as int,
            batch_end(
                run.next_offset as int,
                run.settings.batch_size as int,
                run.new_blobs.len() as int,
            ),
        ),
    }
}

/// The identifiers that the run ends with: those it keeps, then those it has uploaded.
pub open spec fn merged_names(run: RunView) -> Seq<Seq<char>> {
    run.existing + run.uploaded
}

/// How std renders a list of strings for debugging, as `format!("{:?}", ..)` does.
pub uninterp spec fn debug_text(items: Seq<Seq<char>>) -> Seq<char>;

/// The summary note of a run whose lists of extensions and of exclusion patterns are
/// written out as `extensions` and `patterns`.
pub open spec fn note_of(
    extensions: Seq<char>,
    patterns: Seq<char>,
    batch_size: usize,
    max_lines: usize,
) -> Seq<char> {
    "acemcp 代码索引已启用 - 配置摘要: 文件扩展名="@ + extensions + ", 排除模式="@ + patterns
        + ", 批次大小="@ + decimal(batch_size as nat) + ", 最大行数/块="@ + decimal(max_lines as nat)
}

/// The summary note that the first successful run of a project leaves.
pub open spec fn note_text(settings: SettingsView) -> Seq<char> {
    note_of(
        debug_text(settings.text_extensions),
        debug_text(settings.exclude_patterns),
        settings.batch_size,
        settings.max_lines,
    )
}

/// The run as it fails with `error` at the time `now`, and the change of status that
/// records the failure.
pub open spec fn failing(run: RunView, error: IndexError, now: Timestamp) -> (RunView, ActionView) {
    (
        RunView { phase: IndexPhase::SettingFailed, failure: Some(error), ..run },
        ActionView::SetStatus(
            StatusChangeView::Failed {
                error: index_error_message(error, run.project_root),
                at: now,
            },
        ),
    )
}

/// The run as it goes on after its batches so far: with the next batch, or, where none
/// is left, with the writing of the registry.
pub open spec fn continuing(run: RunView) -> (RunView, ActionView) {
    if run.next_offset < run.new_blobs.len() {
        (
            RunView {
                phase: IndexPhase::Uploading,
                next_offset: batch_end(
                    run.next_offset as int,
                    run.settings.batch_size as int,
                    run.new_blobs.len() as int,
                ) as usize,
                batches_started: (run.batches_started + 1) as usize,
                ..run
            },
            ActionView::Upload(next_batch(run)),
        )
    } else {
        (
            RunView { phase: IndexPhase::SavingRegistry, ..run },
            ActionView::SaveRegistry(merged_names(run)),
        )
    }
}

/// The run after the batch in flight has ended with `outcome`: its names are added, or,
/// where it brought none, its number is noted as failed.
pub open spec fn recorded(run: RunView, outcome: UploadOutcome) -> RunView {
    if outcome_names(outcome).len() == 0 {
        RunView { failed_batches: run.failed_batches.push(run.batches_started), ..run }
    } else {
        RunView { uploaded: run.uploaded + outcome_names(outcome), ..run }
    }
}

/// The run over, with `result`.
pub open spec fn finishing(run: RunView, result: Result<Seq<Seq<char>>, IndexError>) -> (
    RunView,
    ActionView,
) {
    (RunView { phase: IndexPhase::Finished, ..run }, ActionView::Finish(result))
}

/// The step of a run: its state and its action after `event`, which happened at the
/// time `now`.
pub open spec fn next_step(run: RunView, event: IndexEvent, now: Timestamp) -> (RunView, ActionView) {
    match (run.phase, event) {
        (IndexPhase::SettingStarted, IndexEvent::Done) => (
            RunView { phase: IndexPhase::Collecting, ..run },
            ActionView::Collect {
                text_extensions: run.settings.text_extensions,
                exclude_patterns: run.settings.exclude_patterns,
                max_lines: run.settings.max_lines,
            },
        ),
        (IndexPhase::Collecting, IndexEvent::Collected(None)) => failing(
            run,
            IndexError::RootMissing,
            now,
        ),
        (IndexPhase::Collecting, IndexEvent::Collected(Some(blobs))) => if blobs@.len() == 0 {
            failing(run, IndexError::NoIndexableFiles, now)
        } else {
            (
                RunView {
                    phase: IndexPhase::SettingCollected,
                    blobs: blobs.deep_view(),
                    collected: blobs@.len() as usize,
                    ..run
                },
                ActionView::SetStatus(
                    StatusChangeView::Collected { total_files: blobs@.len() as usize },
                ),
            )
        },
        (IndexPhase::SettingCollected, IndexEvent::Done) => (
            RunView { phase: IndexPhase::LoadingRegistry, ..run },
            ActionView::LoadRegistry,
        ),
        (IndexPhase::LoadingRegistry, IndexEvent::Registry(names)) => continuing(
            RunView {
                blobs: Seq::empty(),
                existing: existing_ids(run.blobs, names.deep_view()),
                new_blobs: blobs_to_upload(run.blobs, names.deep_view()),
                next_offset: 0,
                batches_started: 0,
                ..run
            },
        ),
        (IndexPhase::Uploading, IndexEvent::Uploaded(outcome)) => continuing(
            recorded(run, outcome),
        ),
        (IndexPhase::SavingRegistry, IndexEvent::Done) => if merged_names(run).len() == 0 {
            failing(run, IndexError::NoBlobIdentifiers, now)
        } else {
            (RunView { phase: IndexPhase::ReadingStatus, ..run }, ActionView::ReadStatus)
        },
        (IndexPhase::ReadingStatus, IndexEvent::Status(status)) => (
            RunView {
                phase: IndexPhase::SettingSynced,
                first_success: status@.last_success_time is None,
                ..run
            },
            ActionView::SetStatus(
                StatusChangeView::Synced { indexed_files: run.collected, at: now },
            ),
        ),
        (IndexPhase::SettingSynced, IndexEvent::Done) => if run.first_success {
            (
                RunView { phase: IndexPhase::WritingNote, ..run },
                ActionView::WriteNote(note_text(run.settings)),
            )
        } else {
            finishing(run, Ok(merged_names(run)))
        },
        (IndexPhase::WritingNote, IndexEvent::Done) => finishing(run, Ok(merged_names(run))),
        (IndexPhase::SettingFailed, IndexEvent::Done) => finishing(
            run,
            Err(
                match run.failure {
                    Some(error) => error,
                    None => IndexError::UnexpectedEvent,
                },
            ),
        ),
        _ => finishing(run, Err(IndexError::UnexpectedEvent)),
    }
}

/// What holds of the value of a run between its steps: batches have a size, and no more
/// blobs have been handed out than there are.
pub open spec fn run_is_sound(run: RunView) -> bool {
    &&& run.settings.batch_size > 0
    &&& run.batches_started <= run.next_offset <= run.new_blobs.len() <= usize::MAX
    &&& run.phase == IndexPhase::Uploading ==> run.batches_started >= 1
}

/// The run after its uploads have ended in `outcomes`, one after the other.
pub open spec fn after_uploads(run: RunView, outcomes: Seq<UploadOutcome>, now: Timestamp) -> RunView
    decreases outcomes.len(),
{
    if outcomes.len() == 0 {
        run
    } else {
        after_uploads(
            next_step(run, IndexEvent::Uploaded(outcomes[0]), now).0,
            outcomes.drop_first(),
            now,
        )
    }
}

/// The names that uploads have brought, in the order of the uploads.
pub open spec fn all_names(outcomes: Seq<UploadOutcome>) -> Seq<Seq<char>>
    decreases outcomes.len(),
{
    if outcomes.len() == 0 {
        Seq::empty()
    } else {
        outcome_names(outcomes[0]) + all_names(outcomes.drop_first())
    }
}

/// The numbers of the uploads that have brought no name, where the first upload has the
/// number `first`.
pub open spec fn failed_numbers(outcomes: Seq<UploadOutcome>, first: int) -> Seq<usize>
    decreases outcomes.len(),
{
    if outcomes.len() == 0 {
        Seq::empty()
    } else if outcome_names(outcomes[0]).len() == 0 {
        seq![first as usize] + failed_numbers(outcomes.drop_first(), first + 1)
    } else {
        failed_numbers(outcomes.drop_first(), first + 1)
    }
}

/// The batches of a run that are still to be handed out.
pub open spec fn batches_left(run: RunView) -> int {
    ceil_div(run.new_blobs.len() - run.next_offset, run.settings.batch_size as int)
}

/// Whatever its batches come to, a run that uploads ends its uploads with the names of
/// the batches that succeeded, in their order, behind the names it had; with the
/// numbers of the batches that failed noted; and with what it keeps from the registry
/// untouched. No failure of a batch keeps a later batch from being sent.
pub proof fn uploads_merge_what_succeeded(run: RunView, outcomes: Seq<UploadOutcome>, now: Timestamp)
    requires
        run_is_sound(run),
        run.phase == IndexPhase::Uploading,
        outcomes.len() == 1 + batches_left(run),
    ensures
        after_uploads(run, outcomes, now).phase == IndexPhase::SavingRegistry,
        after_uploads(run, outcomes, now).uploaded == run.uploaded + all_names(outcomes),
        after_uploads(run, outcomes, now).failed_batches == run.failed_batches + failed_numbers(
            outcomes,
            run.batches_started as int,
        ),
        after_uploads(run, outcomes, now).existing == run.existing,
        merged_names(after_uploads(run, outcomes, now)) == run.existing + run.uploaded + all_names(
            outcomes,
        ),
    decreases outcomes.len(),
{
    let size = run.settings.batch_size as int;
    let count = run.new_blobs.len() as int;
    let left = count - run.next_offset;
    lemma_ceil_div_covers(left, size);
    let rest = outcomes.drop_first();
    let noted = recorded(run, outcomes[0]);
    let next = next_step(run, IndexEvent::Uploaded(outcomes[0]), now).0;
    assert(next == continuing(noted).0);
    assert(noted.uploaded == run.uploaded + outcome_names(outcomes[0])) by {
        if outcome_names(outcomes[0]).len() == 0 {
            assert(run.uploaded + outcome_names(outcomes[0]) =~= run.uploaded);
        }
    }
    if run.next_offset < count {
        let end = batch_end(run.next_offset as int, size, count);
        if left <= size {
            lemma_ceil_div_step(left, size);
            lemma_ceil_div_step(0, size);
        } else {
            lemma_ceil_div_step(left - size, size);
        }
        assert(batches_left(next) == batches_left(run) - 1);
        uploads_merge_what_succeeded(next, rest, now);
        assert(run.uploaded + outcome_names(outcomes[0]) + all_names(rest) =~= run.uploaded + (
        outcome_names(outcomes[0]) + all_names(rest)));
        if outcome_names(outcomes[0]).len() == 0 {
            assert(run.failed_batches.push(run.batches_started) + failed_numbers(
                rest,
                run.batches_started + 1,
            ) =~= run.failed_batches + (seq![run.batches_started] + failed_numbers(
                rest,
                run.batches_started + 1,
            )));
        }
    } else {
        lemma_ceil_div_step(0, size);
        assert(rest.len() == 0);
        assert(after_uploads(next, rest, now) == next);
        assert(all_names(rest) =~= Seq::<Seq<char>>::empty());
        assert(run.uploaded + outcome_names(outcomes[0]) + all_names(rest) =~= run.uploaded + (
        outcome_names(outcomes[0]) + all_names(rest)));
        if outcome_names(outcomes[0]).len() == 0 {
            assert(run.failed_batches.push(run.batches_started) =~= run.failed_batches + (
            seq![run.batches_started] + failed_numbers(rest, run.batches_started + 1)));
        } else {
            assert(run.failed_batches + failed_numbers(rest, run.batches_started + 1)
                =~= run.failed_batches);
        }
    }
    assert(run.existing + (run.uploaded + all_names(outcomes)) =~= run.existing + run.uploaded
        + all_names(outcomes));
}

/// The registry that a run comes to: from the reading of the old registry on, through
/// all its uploads, the run ends up with the identifiers of its collected blobs that the
/// old registry held, and behind them the names that its uploads brought. What the old
/// registry held beyond that is gone.
pub proof fn run_renews_the_registry(
    run: RunView,
    registry: Vec<String>,
    outcomes: Seq<UploadOutcome>,
    now: Timestamp,
)
    requires
        run.phase == IndexPhase::LoadingRegistry,
        run.settings.batch_size > 0,
        run.blobs.len() <= usize::MAX,
        run.uploaded.len() == 0,
        outcomes.len() == ceil_div(
            blobs_to_upload(run.blobs, registry.deep_view()).len() as int,
            run.settings.batch_size as int,
        ),
    ensures
        after_uploads(
            next_step(run, IndexEvent::Registry(registry), now).0,
            outcomes,
            now,
        ).phase == IndexPhase::SavingRegistry,
        merged_names(
            after_uploads(next_step(run, IndexEvent::Registry(registry), now).0, outcomes, now),
        ) == existing_ids(run.blobs, registry.deep_view()) + all_names(outcomes),
{
    let size = run.settings.batch_size as int;
    let fresh = blobs_to_upload(run.blobs, registry.deep_view());
    let kept = existing_ids(run.blobs, registry.deep_view());
    crate::registry::lemma_new_blobs(run.blobs, registry.deep_view(), run.blobs.len());
    let planned = next_step(run, IndexEvent::Registry(registry), now).0;
    lemma_ceil_div_step(0, size);
    if fresh.len() == 0 {
        assert(all_names(outcomes) =~= Seq::<Seq<char>>::empty());
        assert(kept + run.uploaded =~= kept + all_names(outcomes));
    } else {
        let left = fresh.len() as int;
        if left <= size {
            lemma_ceil_div_step(left, size);
        } else {
            lemma_ceil_div_step(left - size, size);
        }
        uploads_merge_what_succeeded(planned, outcomes, now);
        assert(kept + run.uploaded + all_names(outcomes) =~= kept + all_names(outcomes));
    }
}

/// A batch that fails does not stop the run: its number is noted, the names brought so
/// far stay, and the run goes on with the next batch or, behind the last one, with the
/// writing of the registry.
pub proof fn failed_batch_keeps_the_run_going(run: RunView, now: Timestamp)
    requires
        run.phase == IndexPhase::Uploading,
    ensures
        next_step(run, IndexEvent::Uploaded(UploadOutcome::Failed), now).0.uploaded
            == run.uploaded,
        next_step(run, IndexEvent::Uploaded(UploadOutcome::Failed), now).0.failed_batches
            == run.failed_batches.push(run.batches_started),
        next_step(run, IndexEvent::Uploaded(UploadOutcome::Failed), now).1 is Upload
            <==> run.next_offset < run.new_blobs.len(),
        next_step(run, IndexEvent::Uploaded(UploadOutcome::Failed), now).1 is SaveRegistry
            <==> run.next_offset >= run.new_blobs.len(),
{
}

/// The registry that a run writes holds the identifiers that it keeps and, behind
/// them, the names that its uploads have brought, and nothing else.
pub proof fn registry_is_kept_and_uploaded(run: RunView, outcome: UploadOutcome, now: Timestamp)
    requires
        run.phase == IndexPhase::Uploading,
        run.next_offset >= run.new_blobs.len(),
    ensures
        next_step(run, IndexEvent::Uploaded(outcome), now).1 == ActionView::SaveRegistry(
            run.existing + run.uploaded + outcome_names(outcome),
        ),
{
    assert(run.existing + (run.uploaded + outcome_names(outcome)) =~= run.existing + run.uploaded
        + outcome_names(outcome));
    if outcome_names(outcome).len() == 0 {
        assert(run.uploaded + outcome_names(outcome) =~= run.uploaded);
    }
}

/// A run fails behind its uploads only where it ends with no identifier at all; else
/// it goes on to its success, however many batches have failed.
pub proof fn run_fails_only_without_identifiers(run: RunView, now: Timestamp)
    requires
        run.phase == IndexPhase::SavingRegistry,
    ensures
        next_step(run, IndexEvent::Done, now) == (if run.existing.len() + run.uploaded.len()
            == 0 {
            failing(run, IndexError::NoBlobIdentifiers, now)
        } else {
            (RunView { phase: IndexPhase::ReadingStatus, ..run }, ActionView::ReadStatus)
        }),
{
}

/// The summary note is written for the first success of a project and for no later
/// one.
pub proof fn note_is_written_for_the_first_success_only(
    run: RunView,
    status: ProjectIndexStatus,
    now: Timestamp,
)
    requires
        run.phase == IndexPhase::ReadingStatus,
    ensures
        next_step(next_step(run, IndexEvent::Status(status), now).0, IndexEvent::Done, now).1
            is WriteNote <==> status@.last_success_time is None,
{
}

/// Whether a digest can be computed over each blob that `event` brings.
pub open spec fn event_is_hashable(event: IndexEvent) -> bool {
    match event {
        IndexEvent::Collected(Some(blobs)) => all_hashable(blobs.deep_view()),
        _ => true,
    }
}

/// std's `Debug` for a list of strings, through `format!`: how std renders the list
/// for debugging.
#[verifier::external_body]
fn debug_list(items: &Vec<String>) -> (text: String)
    ensures
        text@ == debug_text(items.deep_view()),
{
    format!("{:?}", items)
}

/// The summary note of a run whose lists of extensions and of exclusion patterns are
/// written out as `extensions` and `patterns`.
pub fn compose_note(extensions: &str, patterns: &str, batch_size: usize, max_lines: usize) -> (text:
    String)
    ensures
        text@ == note_of(extensions@, patterns@, batch_size, max_lines),
{
    let mut text = String::from_str("acemcp 代码索引已启用 - 配置摘要: 文件扩展名=");
    text.append(extensions);
    text.append(", 排除模式=");
    text.append(patterns);
    text.append(", 批次大小=");
    text.append(decimal_text(batch_size as u64).as_str());
    text.append(", 最大行数/块=");
    text.append(decimal_text(max_lines as u64).as_str());
    text
}

/// The summary note that the first successful run of a project leaves.
pub fn index_memory_note(settings: &IndexSettings) -> (text: String)
    ensures
        text@ == note_text(settings@),
{
    let extensions = debug_list(&settings.text_extensions);
    let patterns = debug_list(&settings.exclude_patterns);
    compose_note(
        extensions.as_str(),
        patterns.as_str(),
        settings.batch_size,
        settings.max_lines,
    )
}

/// The names that an upload has brought.
pub fn upload_names(outcome: &UploadOutcome) -> (names: Vec<String>)
    ensures
        names.deep_view() == outcome_names(*outcome),
{
    let mut names: Vec<String> = Vec::new();
    assert(names.deep_view() =~= Seq::<Seq<char>>::empty());
    match outcome {
        UploadOutcome::Failed => {},
        UploadOutcome::Answered { blob_names: None } => {},
        UploadOutcome::Answered { blob_names: Some(items) } => {
            let mut i: usize = 0;
            while i < items.len()
                invariant
                    i <= items@.len(),
                    names.deep_view() == named_items(items@, i as nat),
                decreases items@.len() - i,
            {
                let ghost before = names.deep_view();
                match &items[i] {
                    Some(name) => {
                        names.push(name.clone());
                        assert(names.deep_view() =~= before.push(name@));
                    },
                    None => {},
                }
                i += 1;
            }
        },
    }
    names
}

/// Begins the indexing run of the project at `project_root`: checks the configuration
/// and, where it passes, hands back the run with its first action.
pub fn update_index(config: &AcemcpConfig, project_root: &str) -> (begun: Result<
    (IndexRun, IndexAction),
    IndexError,
>)
    requires
        effective_batch_size(config@) > 0,
    ensures
        begun is Ok <==> config_error(config@) is None,
        begun matches Err(error) ==> config_error(config@) == Some(error->Config_0) && error
            is Config,
        begun matches Ok(pair) ==> pair.0.wf() && pair.0@ == initial_run(config@, project_root@)
            && pair.1@ == ActionView::SetStatus(StatusChangeView::Started),
{
    match config.validate() {
        Err(error) => Err(IndexError::Config(error)),
        Ok(()) => {
            let base_url = match &config.base_url {
                Some(url) => url.clone(),
                None => String::new(),
            };
            let token = match &config.token {
                Some(token) => token.clone(),
                None => String::new(),
            };
            let batch_size: u32 = match config.batch_size {
                Some(n) => n,
                None => DEFAULT_BATCH_SIZE,
            };
            let max_lines: u32 = match config.max_lines_per_blob {
                Some(n) => n,
                None => DEFAULT_MAX_LINES_PER_BLOB,
            };
            let settings = IndexSettings {
                base_url,
                token,
                batch_size: batch_size as usize,
                max_lines: max_lines as usize,
                text_extensions: clone_list_or_empty(&config.text_extensions),
                exclude_patterns: clone_list_or_empty(&config.exclude_patterns),
            };
            let run = IndexRun {
                project_root: String::from_str(project_root),
                settings,
                phase: IndexPhase::SettingStarted,
                blobs: Vec::new(),
                collected: 0,
                existing: Vec::new(),
                new_blobs: Vec::new(),
                next_offset: 0,
                batches_started: 0,
                uploaded: Vec::new(),
                failed_batches: Vec::new(),
                first_success: false,
                failure: None,
            };
            assert(run.blobs.deep_view() =~= Seq::<BlobView>::empty());
            assert(run.new_blobs.deep_view() =~= Seq::<BlobView>::empty());
            assert(run.existing.deep_view() =~= Seq::<Seq<char>>::empty());
            assert(run.uploaded.deep_view() =~= Seq::<Seq<char>>::empty());
            Ok((run, IndexAction::SetStatus(StatusChange::Started)))
        },
    }
}

/// Begins the indexing run of the project at `project_root`, whose canonical root is
/// `canonical_root`, unless a run of that project is in flight. The configuration is
/// checked first; a run that begins is in flight until the guard is told of its end.
pub fn begin_guarded_index(
    guard: &mut RunGuard,
    config: &AcemcpConfig,
    project_root: &str,
    canonical_root: &str,
) -> (begun: Result<(IndexRun, IndexAction), IndexError>)
    requires
        old(guard).wf(),
        effective_batch_size(config@) > 0,
    ensures
        final(guard).wf(),
        begun is Ok <==> config_error(config@) is None && !old(guard).is_running(
            normalized_path(canonical_root@),
        ),
        begun matches Err(error) ==> error == (match config_error(config@) {
            Some(e) => IndexError::Config(e),
            None => IndexError::AlreadyRunning,
        }),
        begun matches Ok(pair) ==> pair.0.wf() && pair.0@ == initial_run(config@, project_root@)
            && pair.1@ == ActionView::SetStatus(StatusChangeView::Started),
        forall|key: Seq<char>|
            final(guard).is_running(key) == (old(guard).is_running(key) || (begun is Ok && key
                == normalized_path(canonical_root@))),
{
    let begun = update_index(config, project_root)?;
    if guard.try_begin(canonical_root) {
        Ok(begun)
    } else {
        Err(IndexError::AlreadyRunning)
    }
}

impl IndexRun {
    /// What holds of a run between its steps.
    pub open spec fn wf(self) -> bool {
        &&& self.settings.batch_size > 0
        &&& self.next_offset <= self.new_blobs@.len()
        &&& self.batches_started <= self.next_offset
        &&& self.phase == IndexPhase::SettingCollected || self.phase
            == IndexPhase::LoadingRegistry ==> all_hashable(self.blobs.deep_view())
        &&& self.phase == IndexPhase::Uploading ==> self.batches_started >= 1
    }

    /// A copy of the identifiers that the run ends with.
    fn merged(&self) -> (names: Vec<String>)
        ensures
            names.deep_view() == merged_names(self@),
    {
        let mut names = clone_list(&self.existing);
        let mut rest = clone_list(&self.uploaded);
        let ghost kept = names.deep_view();
        let ghost sent = rest.deep_view();
        names.append(&mut rest);
        assert(names.deep_view() =~= kept + sent);
        names
    }

    /// Fails the run with `error`.
    fn fail(&mut self, error: IndexError, now: Timestamp) -> (action: IndexAction)
        requires
            old(self).wf(),
        ensures
            final(self).wf(),
            (final(self)@, action@) == failing(old(self)@, error, now),
    {
        self.phase = IndexPhase::SettingFailed;
        self.failure = Some(error);
        IndexAction::SetStatus(
            StatusChange::Failed { error: error.message(self.project_root.as_str()), at: now },
        )
    }

    /// Ends the run with `result`.
    fn finish(&mut self, result: Result<Vec<String>, IndexError>) -> (action: IndexAction)
        requires
            old(self).wf(),
        ensures
            final(self).wf(),
            (final(self)@, action@) == finishing(
                old(self)@,
                match result {
                    Ok(names) => Ok(names.deep_view()),
                    Err(error) => Err(error),
                },
            ),
    {
        self.phase = IndexPhase::Finished;
        IndexAction::Finish(result)
    }

    /// Hands out the next batch, or, where none is left, the registry to write.
    fn proceed(&mut self) -> (action: IndexAction)
        requires
            old(self).wf(),
        ensures
            final(self).wf(),
            (final(self)@, action@) == continuing(old(self)@),
    {
        let count = self.new_blobs.len();
        assert(self.new_blobs.deep_view().len() == count);
        if self.next_offset < count {
            let size = self.settings.batch_size;
            let end = if count - self.next_offset <= size {
                count
            } else {
                self.next_offset + size
            };
            let mut blobs: Vec<Blob> = Vec::new();
            let mut i: usize = self.next_offset;
            assert(blobs.deep_view() =~= self.new_blobs.deep_view().subrange(i as int, i as int));
            while i < end
                invariant
                    self.next_offset <= i <= end <= self.new_blobs@.len(),
                    blobs.deep_view() == self.new_blobs.deep_view().subrange(
                        self.next_offset as int,
                        i as int,
                    ),
                decreases end - i,
            {
                let ghost before = blobs.deep_view();
                blobs.push(self.new_blobs[i].duplicate());
                assert(blobs.deep_view() =~= before.push(self.new_blobs@[i as int]@));
                assert(self.new_blobs.deep_view().subrange(self.next_offset as int, i as int + 1)
                    =~= before.push(self.new_blobs@[i as int]@));
                i += 1;
            }
            let batch = UploadBatch {
                number: self.batches_started + 1,
                total: div_ceil(count, size),
                url: joined(self.settings.base_url.as_str(), "/batch-upload"),
                authorization: joined("Bearer ", self.settings.token.as_str()),
                blobs,
            };
            self.phase = IndexPhase::Uploading;
            self.next_offset = end;
            self.batches_started = self.batches_started + 1;
            IndexAction::Upload(batch)
        } else {
            self.phase = IndexPhase::SavingRegistry;
            IndexAction::SaveRegistry(self.merged())
        }
    }

    /// Records how the batch in flight has ended.
    fn record(&mut self, outcome: &UploadOutcome)
        requires
            old(self).wf(),
        ensures
            final(self).wf(),
            final(self)@ == recorded(old(self)@, *outcome),
    {
        let mut names = upload_names(outcome);
        if names.len() == 0 {
            assert(names.deep_view().len() == 0);
            self.failed_batches.push(self.batches_started);
        } else {
            assert(names.deep_view().len() != 0);
            let ghost before = self.uploaded.deep_view();
            let ghost added = names.deep_view();
            self.uploaded.append(&mut names);
            assert(self.uploaded.deep_view() =~= before + added);
        }
    }

    /// Takes the run one step on: `event` has happened at the time `now`; the result is
    /// what to do next.
    pub fn step_at(&mut self, event: IndexEvent, now: Timestamp) -> (action: IndexAction)
        requires
            old(self).wf(),
            event_is_hashable(event),
        ensures
            final(self).wf(),
            (final(self)@, action@) == next_step(old(self)@, event, now),
    {
        match (self.phase, event) {
            (IndexPhase::SettingStarted, IndexEvent::Done) => {
                self.phase = IndexPhase::Collecting;
                IndexAction::Collect {
                    text_extensions: clone_list(&self.settings.text_extensions),
                    exclude_patterns: clone_list(&self.settings.exclude_patterns),
                    max_lines: self.settings.max_lines,
                }
            },
            (IndexPhase::Collecting, IndexEvent::Collected(None)) => self.fail(
                IndexError::RootMissing,
                now,
            ),
            (IndexPhase::Collecting, IndexEvent::Collected(Some(blobs))) => {
                if blobs.len() == 0 {
                    self.fail(IndexError::NoIndexableFiles, now)
                } else {
                    let total_files = blobs.len();
                    self.phase = IndexPhase::SettingCollected;
                    self.collected = total_files;
                    self.blobs = blobs;
                    IndexAction::SetStatus(StatusChange::Collected { total_files })
                }
            },
            (IndexPhase::SettingCollected, IndexEvent::Done) => {
                self.phase = IndexPhase::LoadingRegistry;
                IndexAction::LoadRegistry
            },
            (IndexPhase::LoadingRegistry, IndexEvent::Registry(names)) => {
                let plan = plan_upload(&self.blobs, &names);
                self.blobs = Vec::new();
                assert(self.blobs.deep_view() =~= Seq::<BlobView>::empty());
                self.existing = plan.existing;
                self.new_blobs = plan.new_blobs;
                self.next_offset = 0;
                self.batches_started = 0;
                self.proceed()
            },
            (IndexPhase::Uploading, IndexEvent::Uploaded(outcome)) => {
                self.record(&outcome);
                self.proceed()
            },
            (IndexPhase::SavingRegistry, IndexEvent::Done) => {
                if self.existing.len() == 0 && self.uploaded.len() == 0 {
                    assert(merged_names(self@).len() == 0);
                    self.fail(IndexError::NoBlobIdentifiers, now)
                } else {
                    assert(merged_names(self@).len() == self.existing@.len()
                        + self.uploaded@.len());
                    self.phase = IndexPhase::ReadingStatus;
                    IndexAction::ReadStatus
                }
            },
            (IndexPhase::ReadingStatus, IndexEvent::Status(status)) => {
                self.phase = IndexPhase::SettingSynced;
                self.first_success = status.never_succeeded();
                IndexAction::SetStatus(
                    StatusChange::Synced { indexed_files: self.collected, at: now },
                )
            },
            (IndexPhase::SettingSynced, IndexEvent::Done) => {
                if self.first_success {
                    self.phase = IndexPhase::WritingNote;
                    IndexAction::WriteNote(index_memory_note(&self.settings))
                } else {
                    let names = self.merged();
                    self.finish(Ok(names))
                }
            },
            (IndexPhase::WritingNote, IndexEvent::Done) => {
                let names = self.merged();
                self.finish(Ok(names))
            },
            (IndexPhase::SettingFailed, IndexEvent::Done) => {
                let error = match self.failure {
                    Some(error) => error,
                    None => IndexError::UnexpectedEvent,
                };
                self.finish(Err(error))
            },
            _ => self.finish(Err(IndexError::UnexpectedEvent)),
        }
    }

    /// Takes the run one step on, at the time of the call.
    pub fn step(&mut self, event: IndexEvent) -> (action: IndexAction)
        requires
            old(self).wf(),
            event_is_hashable(event),
        ensures
            final(self).wf(),
            exists|now: Timestamp| (final(self)@, action@) == next_step(old(self)@, event, now),
    {
        let now = Timestamp::now();
        self.step_at(event, now)
    }
}

} // verus!
