use acemcp::status::{
    ensure_initial_index_background, get_initial_index_state, get_project_status,
    update_project_status, IndexStatus, InitialIndexState, ProjectIndexStatus,
    ProjectsIndexStatus, StatusChange, Timestamp,
};

fn at(seconds: i64) -> Timestamp {
    Timestamp { seconds, nanos: 0 }
}

fn record(status: IndexStatus, total_files: usize) -> ProjectIndexStatus {
    let mut record = ProjectIndexStatus::new(String::from("/p"));
    record.status = status;
    record.total_files = total_files;
    record
}

#[test]
fn untouched_project_is_idle_with_no_files() {
    let status = ProjectIndexStatus::new(String::from("/home/me/proj"));
    assert_eq!(status.project_root, "/home/me/proj");
    assert_eq!(status.status, IndexStatus::Idle);
    assert_eq!(status.progress, 0);
    assert_eq!(status.total_files, 0);
    assert_eq!(status.indexed_files, 0);
    assert_eq!(status.pending_files, 0);
    assert_eq!(status.last_error, None);
    assert_eq!(status.last_success_time, None);
    assert_eq!(status.last_failure_time, None);
    assert!(status.never_succeeded());
}

#[test]
fn start_of_a_run_sets_indexing_and_no_progress() {
    let mut status = record(IndexStatus::Synced, 7);
    status.progress = 100;
    status.apply(StatusChange::Started);
    assert_eq!(status.status, IndexStatus::Indexing);
    assert_eq!(status.progress, 0);
    assert_eq!(status.total_files, 7);
}

#[test]
fn collecting_sets_the_count_and_a_fifth_of_the_progress() {
    let mut status = record(IndexStatus::Indexing, 0);
    status.apply(StatusChange::Collected { total_files: 42 });
    assert_eq!(status.status, IndexStatus::Indexing);
    assert_eq!(status.total_files, 42);
    assert_eq!(status.progress, 20);
}

#[test]
fn failure_keeps_its_message_and_time() {
    let mut status = record(IndexStatus::Indexing, 3);
    status.progress = 20;
    status.last_success_time = Some(at(5));
    status.apply(StatusChange::Failed { error: String::from("boom"), at: at(9) });
    assert_eq!(status.status, IndexStatus::Failed);
    assert_eq!(status.last_error, Some(String::from("boom")));
    assert_eq!(status.last_failure_time, Some(at(9)));
    assert_eq!(status.last_success_time, Some(at(5)));
    assert_eq!(status.progress, 20);
    assert_eq!(status.total_files, 3);
}

#[test]
fn success_completes_the_record_and_clears_the_error() {
    let mut status = record(IndexStatus::Indexing, 3);
    status.pending_files = 2;
    status.last_error = Some(String::from("old"));
    status.last_failure_time = Some(at(1));
    status.apply(StatusChange::Synced { indexed_files: 3, at: at(11) });
    assert_eq!(status.status, IndexStatus::Synced);
    assert_eq!(status.progress, 100);
    assert_eq!(status.indexed_files, 3);
    assert_eq!(status.pending_files, 0);
    assert_eq!(status.last_success_time, Some(at(11)));
    assert_eq!(status.last_error, None);
    assert_eq!(status.last_failure_time, Some(at(1)));
    assert!(!status.never_succeeded());
}

#[test]
fn state_of_a_search_follows_status_and_count() {
    assert_eq!(record(IndexStatus::Idle, 0).initial_state(), InitialIndexState::Idle);
    assert_eq!(record(IndexStatus::Idle, 1).initial_state(), InitialIndexState::Missing);
    assert_eq!(record(IndexStatus::Indexing, 0).initial_state(), InitialIndexState::Indexing);
    assert_eq!(record(IndexStatus::Indexing, 9).initial_state(), InitialIndexState::Indexing);
    assert_eq!(record(IndexStatus::Synced, 0).initial_state(), InitialIndexState::Synced);
    assert_eq!(record(IndexStatus::Synced, 9).initial_state(), InitialIndexState::Synced);
    assert_eq!(record(IndexStatus::Failed, 0).initial_state(), InitialIndexState::Failed);
    assert_eq!(record(IndexStatus::Failed, 9).initial_state(), InitialIndexState::Failed);
}

#[test]
fn store_without_record_answers_with_an_untouched_one() {
    let all = ProjectsIndexStatus::new();
    let status = get_project_status(&all, "C:\\Users\\me\\proj");
    assert_eq!(status.project_root, "C:/Users/me/proj");
    assert_eq!(status.status, IndexStatus::Idle);
    assert_eq!(status.total_files, 0);
    assert_eq!(all.projects.len(), 0);
}

#[test]
fn update_makes_the_record_where_there_is_none() {
    let mut all = ProjectsIndexStatus::new();
    update_project_status(&mut all, "/p", StatusChange::Started);
    assert_eq!(all.projects.len(), 1);
    let status = get_project_status(&all, "/p");
    assert_eq!(status.project_root, "/p");
    assert_eq!(status.status, IndexStatus::Indexing);
}

#[test]
fn update_changes_the_record_of_its_project_only() {
    let mut all = ProjectsIndexStatus::new();
    update_project_status(&mut all, "/p", StatusChange::Started);
    update_project_status(&mut all, "/q", StatusChange::Collected { total_files: 4 });
    update_project_status(&mut all, "/p", StatusChange::Synced { indexed_files: 2, at: at(3) });
    assert_eq!(all.projects.len(), 2);
    let p = get_project_status(&all, "/p");
    let q = get_project_status(&all, "/q");
    assert_eq!(p.status, IndexStatus::Synced);
    assert_eq!(p.indexed_files, 2);
    assert_eq!(q.status, IndexStatus::Idle);
    assert_eq!(q.total_files, 4);
    assert_eq!(q.progress, 20);
}

#[test]
fn spellings_of_one_root_share_one_record() {
    let mut all = ProjectsIndexStatus::new();
    update_project_status(&mut all, "C:\\proj", StatusChange::Started);
    update_project_status(&mut all, "C:/proj", StatusChange::Collected { total_files: 1 });
    assert_eq!(all.projects.len(), 1);
    let status = get_project_status(&all, "C:\\proj");
    assert_eq!(status.status, IndexStatus::Indexing);
    assert_eq!(status.total_files, 1);
}

#[test]
fn state_of_a_project_is_read_from_the_store() {
    let mut all = ProjectsIndexStatus::new();
    assert_eq!(get_initial_index_state(&all, "/p"), InitialIndexState::Idle);
    update_project_status(&mut all, "/p", StatusChange::Collected { total_files: 5 });
    assert_eq!(get_initial_index_state(&all, "/p"), InitialIndexState::Missing);
    update_project_status(&mut all, "/p", StatusChange::Started);
    assert_eq!(get_initial_index_state(&all, "/p"), InitialIndexState::Indexing);
    update_project_status(&mut all, "/p", StatusChange::Synced { indexed_files: 5, at: at(1) });
    assert_eq!(get_initial_index_state(&all, "/p"), InitialIndexState::Synced);
    update_project_status(
        &mut all,
        "/p",
        StatusChange::Failed { error: String::from("e"), at: at(2) },
    );
    assert_eq!(get_initial_index_state(&all, "/p"), InitialIndexState::Failed);
}

#[test]
fn background_run_is_started_where_the_index_is_absent_or_failed() {
    let mut all = ProjectsIndexStatus::new();
    assert!(ensure_initial_index_background(&all, "/p"));
    update_project_status(&mut all, "/p", StatusChange::Collected { total_files: 5 });
    assert!(ensure_initial_index_background(&all, "/p"));
    update_project_status(&mut all, "/p", StatusChange::Started);
    assert!(!ensure_initial_index_background(&all, "/p"));
    update_project_status(&mut all, "/p", StatusChange::Synced { indexed_files: 5, at: at(1) });
    assert!(!ensure_initial_index_background(&all, "/p"));
    update_project_status(
        &mut all,
        "/p",
        StatusChange::Failed { error: String::from("e"), at: at(2) },
    );
    assert!(ensure_initial_index_background(&all, "/p"));
}

#[test]
fn time_of_the_call_lies_in_this_century() {
    let now = Timestamp::now();
    assert!(now.seconds > 1_600_000_000);
    assert!(now.seconds < 4_102_444_800);
    assert!(now.nanos < 2_000_000_000);
}

#[test]
fn copy_of_a_record_holds_the_same() {
    let mut status = record(IndexStatus::Failed, 3);
    status.last_error = Some(String::from("e"));
    status.last_failure_time = Some(at(4));
    let copy = status.duplicate();
    assert_eq!(copy.project_root, status.project_root);
    assert_eq!(copy.status, status.status);
    assert_eq!(copy.total_files, 3);
    assert_eq!(copy.last_error, Some(String::from("e")));
    assert_eq!(copy.last_failure_time, Some(at(4)));
}
