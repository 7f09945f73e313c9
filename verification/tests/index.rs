use acemcp::blob::Blob;
use acemcp::config::{AcemcpConfig, ConfigError};
use acemcp::guard::RunGuard;
use acemcp::index::{
    begin_guarded_index, compose_note, index_memory_note, update_index, upload_names, IndexAction, IndexError,
    IndexEvent, IndexPhase, IndexRun, IndexSettings, UploadOutcome,
};
use acemcp::status::{
    get_project_status, update_project_status, IndexStatus, ProjectsIndexStatus, StatusChange,
    Timestamp,
};

const ROOT: &str = "/home/me/proj";

fn config(batch_size: u32) -> AcemcpConfig {
    AcemcpConfig {
        base_url: Some(String::from("https://api.example.com")),
        token: Some(String::from("secret-token")),
        batch_size: Some(batch_size),
        max_lines_per_blob: Some(800),
        text_extensions: Some(vec![String::from(".rs"), String::from(".py")]),
        exclude_patterns: Some(vec![String::from("target")]),
        smart_wait_range: Some((1, 5)),
    }
}

fn blob(path: &str, content: &str) -> Blob {
    Blob::new(String::from(path), String::from(content))
}

fn at(seconds: i64) -> Timestamp {
    Timestamp { seconds, nanos: 0 }
}

fn answered(names: &[&str]) -> UploadOutcome {
    UploadOutcome::Answered {
        blob_names: Some(names.iter().map(|n| Some(String::from(*n))).collect()),
    }
}

fn start(batch_size: u32) -> IndexRun {
    let (run, action) = update_index(&config(batch_size), ROOT).unwrap();
    assert!(matches!(action, IndexAction::SetStatus(StatusChange::Started)));
    run
}

fn expect_status(action: IndexAction) -> StatusChange {
    match action {
        IndexAction::SetStatus(change) => change,
        _ => panic!("a change of status was expected"),
    }
}

fn expect_upload(action: IndexAction) -> acemcp::index::UploadBatch {
    match action {
        IndexAction::Upload(batch) => batch,
        _ => panic!("an upload was expected"),
    }
}

fn expect_registry(action: IndexAction) -> Vec<String> {
    match action {
        IndexAction::SaveRegistry(names) => names,
        _ => panic!("the registry was expected"),
    }
}

fn expect_finish(action: IndexAction) -> Result<Vec<String>, IndexError> {
    match action {
        IndexAction::Finish(result) => result,
        _ => panic!("the end of the run was expected"),
    }
}

fn run_until_registry(run: &mut IndexRun, blobs: Vec<Blob>, registry: Vec<String>) -> IndexAction {
    assert!(matches!(run.step_at(IndexEvent::Done, at(1)), IndexAction::Collect { .. }));
    let count = blobs.len();
    let change = expect_status(run.step_at(IndexEvent::Collected(Some(blobs)), at(2)));
    assert!(matches!(change, StatusChange::Collected { total_files } if total_files == count));
    assert!(matches!(run.step_at(IndexEvent::Done, at(3)), IndexAction::LoadRegistry));
    run.step_at(IndexEvent::Registry(registry), at(4))
}

#[test]
fn configuration_is_checked_before_anything_is_done() {
    let mut missing_url = config(10);
    missing_url.base_url = None;
    assert!(matches!(
        update_index(&missing_url, ROOT),
        Err(IndexError::Config(ConfigError::MissingBaseUrl))
    ));
    let mut invalid_url = config(10);
    invalid_url.base_url = Some(String::from("example.com"));
    assert!(matches!(
        update_index(&invalid_url, ROOT),
        Err(IndexError::Config(ConfigError::InvalidBaseUrl))
    ));
    let mut missing_token = config(10);
    missing_token.token = None;
    assert!(matches!(
        update_index(&missing_token, ROOT),
        Err(IndexError::Config(ConfigError::MissingToken))
    ));
}

#[test]
fn second_run_of_a_project_is_refused_while_the_first_is_in_flight() {
    let mut guard = RunGuard::new();
    let first = begin_guarded_index(&mut guard, &config(10), "proj", "/home/me/proj");
    assert!(first.is_ok());
    assert!(guard.has_run("/home/me/proj"));
    let second = begin_guarded_index(&mut guard, &config(10), "./proj", "/home/me/proj");
    assert!(matches!(second, Err(IndexError::AlreadyRunning)));
    let other = begin_guarded_index(&mut guard, &config(10), "other", "/home/me/other");
    assert!(other.is_ok());
    guard.finish("/home/me/proj");
    let third = begin_guarded_index(&mut guard, &config(10), "proj", "/home/me/proj");
    assert!(third.is_ok());
}

#[test]
fn run_with_a_bad_configuration_is_not_in_flight() {
    let mut guard = RunGuard::new();
    let mut missing_token = config(10);
    missing_token.token = None;
    let begun = begin_guarded_index(&mut guard, &missing_token, "proj", "/home/me/proj");
    assert!(matches!(begun, Err(IndexError::Config(ConfigError::MissingToken))));
    assert!(!guard.has_run("/home/me/proj"));
    assert!(guard.try_begin("/home/me/proj"));
    let again = begin_guarded_index(&mut guard, &missing_token, "proj", "/home/me/proj");
    assert!(matches!(again, Err(IndexError::Config(ConfigError::MissingToken))));
}

#[test]
fn run_takes_its_settings_from_the_configuration() {
    let run = start(7);
    assert_eq!(run.project_root, ROOT);
    assert_eq!(run.phase, IndexPhase::SettingStarted);
    assert_eq!(run.settings.base_url, "https://api.example.com");
    assert_eq!(run.settings.token, "secret-token");
    assert_eq!(run.settings.batch_size, 7);
    assert_eq!(run.settings.max_lines, 800);
    assert_eq!(run.settings.text_extensions, vec![".rs", ".py"]);
    assert_eq!(run.settings.exclude_patterns, vec!["target"]);
}

#[test]
fn run_falls_back_on_the_defaults() {
    let bare = AcemcpConfig {
        base_url: Some(String::from("https://api.example.com")),
        token: Some(String::from("t")),
        batch_size: None,
        max_lines_per_blob: None,
        text_extensions: None,
        exclude_patterns: None,
        smart_wait_range: None,
    };
    let (run, _) = update_index(&bare, ROOT).unwrap();
    assert_eq!(run.settings.batch_size, 10);
    assert_eq!(run.settings.max_lines, 800);
    assert!(run.settings.text_extensions.is_empty());
    assert!(run.settings.exclude_patterns.is_empty());
}

#[test]
fn collecting_is_asked_for_with_the_settings() {
    let mut run = start(10);
    match run.step_at(IndexEvent::Done, at(1)) {
        IndexAction::Collect { text_extensions, exclude_patterns, max_lines } => {
            assert_eq!(text_extensions, vec![".rs", ".py"]);
            assert_eq!(exclude_patterns, vec!["target"]);
            assert_eq!(max_lines, 800);
        }
        _ => panic!("collecting was expected"),
    }
    assert_eq!(run.phase, IndexPhase::Collecting);
}

#[test]
fn first_successful_run_goes_from_idle_over_indexing_to_synced() {
    let mut all = ProjectsIndexStatus::new();
    assert_eq!(get_project_status(&all, ROOT).status, IndexStatus::Idle);

    let (mut run, action) = update_index(&config(10), ROOT).unwrap();
    update_project_status(&mut all, ROOT, expect_status(action));
    assert_eq!(get_project_status(&all, ROOT).status, IndexStatus::Indexing);
    assert_eq!(get_project_status(&all, ROOT).progress, 0);

    assert!(matches!(run.step_at(IndexEvent::Done, at(1)), IndexAction::Collect { .. }));
    let blobs = vec![blob("a.rs", "a"), blob("b.rs", "b")];
    let action = run.step_at(IndexEvent::Collected(Some(blobs)), at(2));
    update_project_status(&mut all, ROOT, expect_status(action));
    assert_eq!(get_project_status(&all, ROOT).status, IndexStatus::Indexing);
    assert_eq!(get_project_status(&all, ROOT).total_files, 2);
    assert_eq!(get_project_status(&all, ROOT).progress, 20);

    assert!(matches!(run.step_at(IndexEvent::Done, at(3)), IndexAction::LoadRegistry));
    let batch = expect_upload(run.step_at(IndexEvent::Registry(Vec::new()), at(4)));
    assert_eq!(batch.number, 1);
    assert_eq!(batch.total, 1);
    assert_eq!(batch.blobs.len(), 2);

    let names = expect_registry(run.step_at(IndexEvent::Uploaded(answered(&["n1", "n2"])), at(5)));
    assert_eq!(names, vec!["n1", "n2"]);

    assert!(matches!(run.step_at(IndexEvent::Done, at(6)), IndexAction::ReadStatus));
    let stored = get_project_status(&all, ROOT);
    let action = run.step_at(IndexEvent::Status(stored), at(7));
    update_project_status(&mut all, ROOT, expect_status(action));
    let synced = get_project_status(&all, ROOT);
    assert_eq!(synced.status, IndexStatus::Synced);
    assert_eq!(synced.progress, 100);
    assert_eq!(synced.indexed_files, 2);
    assert_eq!(synced.pending_files, 0);
    assert_eq!(synced.last_success_time, Some(at(7)));
    assert_eq!(synced.last_error, None);

    let mut notes = 0;
    let mut action = run.step_at(IndexEvent::Done, at(8));
    if let IndexAction::WriteNote(text) = &action {
        notes += 1;
        assert!(text.starts_with("acemcp 代码索引已启用"));
        action = run.step_at(IndexEvent::Done, at(9));
    }
    assert_eq!(notes, 1);
    assert_eq!(expect_finish(action), Ok(vec![String::from("n1"), String::from("n2")]));
    assert_eq!(run.phase, IndexPhase::Finished);
    assert!(run.failed_batches.is_empty());
}

#[test]
fn later_successful_run_writes_no_note() {
    let mut run = start(10);
    let action = run_until_registry(&mut run, vec![blob("a.rs", "a")], Vec::new());
    expect_upload(action);
    expect_registry(run.step_at(IndexEvent::Uploaded(answered(&["n1"])), at(5)));
    assert!(matches!(run.step_at(IndexEvent::Done, at(6)), IndexAction::ReadStatus));
    let mut stored = acemcp::status::ProjectIndexStatus::new(String::from(ROOT));
    stored.last_success_time = Some(at(1));
    let change = expect_status(run.step_at(IndexEvent::Status(stored), at(7)));
    assert!(matches!(change, StatusChange::Synced { indexed_files: 1, at: t } if t == at(7)));
    assert_eq!(expect_finish(run.step_at(IndexEvent::Done, at(8))), Ok(vec![String::from("n1")]));
}

#[test]
fn project_without_files_fails_the_run() {
    let mut all = ProjectsIndexStatus::new();
    let (mut run, action) = update_index(&config(10), ROOT).unwrap();
    update_project_status(&mut all, ROOT, expect_status(action));
    assert!(matches!(run.step_at(IndexEvent::Done, at(1)), IndexAction::Collect { .. }));
    let action = run.step_at(IndexEvent::Collected(Some(Vec::new())), at(2));
    update_project_status(&mut all, ROOT, expect_status(action));
    let failed = get_project_status(&all, ROOT);
    assert_eq!(failed.status, IndexStatus::Failed);
    assert_eq!(failed.last_error, Some(String::from("未在项目中找到可索引的文本文件")));
    assert_eq!(failed.last_failure_time, Some(at(2)));
    assert_eq!(failed.last_success_time, None);
    assert_eq!(
        expect_finish(run.step_at(IndexEvent::Done, at(3))),
        Err(IndexError::NoIndexableFiles)
    );
    assert_eq!(run.phase, IndexPhase::Finished);
}

#[test]
fn missing_root_fails_the_run() {
    let mut run = start(10);
    run.step_at(IndexEvent::Done, at(1));
    let change = expect_status(run.step_at(IndexEvent::Collected(None), at(2)));
    match change {
        StatusChange::Failed { error, at: when } => {
            assert_eq!(error, "项目根目录不存在: /home/me/proj");
            assert_eq!(when, at(2));
        }
        _ => panic!("a failure was expected"),
    }
    assert_eq!(expect_finish(run.step_at(IndexEvent::Done, at(3))), Err(IndexError::RootMissing));
}

#[test]
fn failed_batch_does_not_stop_the_others() {
    let mut run = start(1);
    let blobs = vec![blob("a.rs", "a"), blob("b.rs", "b"), blob("c.rs", "c")];
    let first = expect_upload(run_until_registry(&mut run, blobs, Vec::new()));
    assert_eq!((first.number, first.total), (1, 3));
    assert_eq!(first.blobs[0].path, "a.rs");
    let second = expect_upload(run.step_at(IndexEvent::Uploaded(answered(&["id-a"])), at(5)));
    assert_eq!((second.number, second.total), (2, 3));
    assert_eq!(second.blobs[0].path, "b.rs");
    let third = expect_upload(run.step_at(IndexEvent::Uploaded(UploadOutcome::Failed), at(6)));
    assert_eq!((third.number, third.total), (3, 3));
    assert_eq!(third.blobs[0].path, "c.rs");
    let names = expect_registry(run.step_at(IndexEvent::Uploaded(answered(&["id-c"])), at(7)));
    assert_eq!(names, vec!["id-a", "id-c"]);
    assert_eq!(run.failed_batches, vec![2]);
    assert!(matches!(run.step_at(IndexEvent::Done, at(8)), IndexAction::ReadStatus));
    let stored = acemcp::status::ProjectIndexStatus::new(String::from(ROOT));
    let change = expect_status(run.step_at(IndexEvent::Status(stored), at(9)));
    assert!(matches!(change, StatusChange::Synced { indexed_files: 3, .. }));
}

#[test]
fn run_without_any_identifier_fails() {
    let mut run = start(10);
    let action = run_until_registry(&mut run, vec![blob("a.rs", "a")], Vec::new());
    expect_upload(action);
    let names = expect_registry(run.step_at(IndexEvent::Uploaded(UploadOutcome::Failed), at(5)));
    assert!(names.is_empty());
    assert_eq!(run.failed_batches, vec![1]);
    let change = expect_status(run.step_at(IndexEvent::Done, at(6)));
    match change {
        StatusChange::Failed { error, at: when } => {
            assert_eq!(error, "索引后未找到 blobs");
            assert_eq!(when, at(6));
        }
        _ => panic!("a failure was expected"),
    }
    assert_eq!(
        expect_finish(run.step_at(IndexEvent::Done, at(7))),
        Err(IndexError::NoBlobIdentifiers)
    );
}

#[test]
fn failed_uploads_leave_a_run_with_known_blobs_synced() {
    let mut run = start(10);
    let known = blob("a.rs", "a");
    let registry = vec![known.identifier()];
    let action = run_until_registry(&mut run, vec![known.duplicate(), blob("b.rs", "b")], registry);
    let batch = expect_upload(action);
    assert_eq!(batch.blobs.len(), 1);
    assert_eq!(batch.blobs[0].path, "b.rs");
    let names = expect_registry(run.step_at(IndexEvent::Uploaded(UploadOutcome::Failed), at(5)));
    assert_eq!(names, vec![known.identifier()]);
    assert!(matches!(run.step_at(IndexEvent::Done, at(6)), IndexAction::ReadStatus));
}

#[test]
fn unchanged_project_uploads_nothing_and_keeps_its_registry() {
    let mut run = start(10);
    let a = blob("a.rs", "a");
    let b = blob("b.rs", "b");
    let registry = vec![String::from("stale"), a.identifier(), b.identifier()];
    let action = run_until_registry(&mut run, vec![a.duplicate(), b.duplicate()], registry);
    let names = expect_registry(action);
    assert_eq!(names, vec![a.identifier(), b.identifier()]);
    assert_eq!(run.phase, IndexPhase::SavingRegistry);
}

#[test]
fn registry_after_a_run_is_what_stays_and_what_was_uploaded() {
    let mut run = start(10);
    let a = blob("a.rs", "a");
    let b = blob("b.rs", "b");
    let c = blob("c.rs", "c");
    let d = blob("d.rs", "d");
    let registry = vec![a.identifier(), b.identifier(), c.identifier()];
    let collected = vec![b.duplicate(), c.duplicate(), d.duplicate()];
    let batch = expect_upload(run_until_registry(&mut run, collected, registry));
    assert_eq!(batch.blobs.len(), 1);
    assert_eq!(batch.blobs[0].path, "d.rs");
    let uploaded = d.identifier();
    let names = expect_registry(
        run.step_at(IndexEvent::Uploaded(answered(&[uploaded.as_str()])), at(5)),
    );
    assert_eq!(names, vec![b.identifier(), c.identifier(), d.identifier()]);
    assert!(!names.contains(&a.identifier()));
}

#[test]
fn batches_hold_the_batch_size_and_the_last_the_rest() {
    let mut run = start(10);
    let blobs: Vec<Blob> = (0..25).map(|i| blob(&format!("f{}.rs", i), "x")).collect();
    let mut action = run_until_registry(&mut run, blobs, Vec::new());
    let mut sizes = Vec::new();
    let mut numbers = Vec::new();
    let mut first_paths = Vec::new();
    while let IndexAction::Upload(batch) = action {
        assert_eq!(batch.total, 3);
        assert_eq!(batch.url, "https://api.example.com/batch-upload");
        assert_eq!(batch.authorization, "Bearer secret-token");
        sizes.push(batch.blobs.len());
        numbers.push(batch.number);
        first_paths.push(batch.blobs[0].path.clone());
        action = run.step_at(IndexEvent::Uploaded(answered(&["n"])), at(5));
    }
    assert_eq!(sizes, vec![10, 10, 5]);
    assert_eq!(numbers, vec![1, 2, 3]);
    assert_eq!(first_paths, vec!["f0.rs", "f10.rs", "f20.rs"]);
    assert_eq!(expect_registry(action), vec!["n", "n", "n"]);
}

#[test]
fn answer_without_names_is_a_failed_batch() {
    assert!(upload_names(&UploadOutcome::Failed).is_empty());
    assert!(upload_names(&UploadOutcome::Answered { blob_names: None }).is_empty());
    assert!(upload_names(&UploadOutcome::Answered { blob_names: Some(Vec::new()) }).is_empty());
    assert!(upload_names(&UploadOutcome::Answered { blob_names: Some(vec![None, None]) }).is_empty());
}

#[test]
fn names_that_are_no_strings_are_passed_over() {
    let outcome = UploadOutcome::Answered {
        blob_names: Some(vec![Some(String::from("a")), None, Some(String::from("b"))]),
    };
    assert_eq!(upload_names(&outcome), vec!["a", "b"]);
}

#[test]
fn batch_with_an_empty_list_of_names_is_noted_as_failed() {
    let mut run = start(1);
    let blobs = vec![blob("a.rs", "a"), blob("b.rs", "b")];
    expect_upload(run_until_registry(&mut run, blobs, Vec::new()));
    expect_upload(run.step_at(
        IndexEvent::Uploaded(UploadOutcome::Answered { blob_names: Some(Vec::new()) }),
        at(5),
    ));
    let names = expect_registry(
        run.step_at(IndexEvent::Uploaded(UploadOutcome::Answered { blob_names: None }), at(6)),
    );
    assert!(names.is_empty());
    assert_eq!(run.failed_batches, vec![1, 2]);
}

#[test]
fn event_that_does_not_answer_the_action_ends_the_run() {
    let mut run = start(10);
    assert_eq!(
        expect_finish(run.step_at(IndexEvent::Registry(Vec::new()), at(1))),
        Err(IndexError::UnexpectedEvent)
    );
    assert_eq!(run.phase, IndexPhase::Finished);
    assert_eq!(
        expect_finish(run.step_at(IndexEvent::Done, at(2))),
        Err(IndexError::UnexpectedEvent)
    );
}

#[test]
fn step_at_the_time_of_the_call_stamps_the_failure() {
    let mut run = start(10);
    run.step(IndexEvent::Done);
    match run.step(IndexEvent::Collected(Some(Vec::new()))) {
        IndexAction::SetStatus(StatusChange::Failed { at: when, .. }) => {
            assert!(when.seconds > 1_600_000_000);
        }
        _ => panic!("a failure was expected"),
    }
}

#[test]
fn note_sums_up_the_settings() {
    let settings = IndexSettings {
        base_url: String::from("https://api.example.com"),
        token: String::from("t"),
        batch_size: 10,
        max_lines: 800,
        text_extensions: vec![String::from(".rs"), String::from(".py")],
        exclude_patterns: vec![String::from("target"), String::from("a\"b")],
    };
    assert_eq!(
        index_memory_note(&settings),
        "acemcp 代码索引已启用 - 配置摘要: 文件扩展名=[\".rs\", \".py\"], 排除模式=[\"target\", \"a\\\"b\"], 批次大小=10, 最大行数/块=800"
    );
}

#[test]
fn note_is_composed_of_its_parts() {
    assert_eq!(
        compose_note("[]", "[\"x\"]", 3, 1),
        "acemcp 代码索引已启用 - 配置摘要: 文件扩展名=[], 排除模式=[\"x\"], 批次大小=3, 最大行数/块=1"
    );
}

#[test]
fn errors_of_a_run_have_their_messages() {
    assert_eq!(IndexError::Config(ConfigError::MissingToken).message(ROOT), "未配置 token");
    assert_eq!(IndexError::RootMissing.message(ROOT), "项目根目录不存在: /home/me/proj");
    assert_eq!(IndexError::NoIndexableFiles.message(ROOT), "未在项目中找到可索引的文本文件");
    assert_eq!(IndexError::NoBlobIdentifiers.message(ROOT), "索引后未找到 blobs");
    assert_eq!(IndexError::UnexpectedEvent.message(ROOT), "索引流程收到了与当前步骤不符的事件");
    assert_eq!(IndexError::AlreadyRunning.message(ROOT), "该项目的索引任务正在进行中");
}
