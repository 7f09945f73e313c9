use acemcp::blob::Blob;
use acemcp::digest::sha256_hex;
use acemcp::registry::{contains_name, plan_upload, ProjectRegistry};

fn blob(path: &str, content: &str) -> Blob {
    Blob::new(String::from(path), String::from(content))
}

fn paths(blobs: &Vec<Blob>) -> Vec<String> {
    blobs.iter().map(|b| b.path.clone()).collect()
}

#[test]
fn registry_without_entry_holds_no_identifier() {
    let registry = ProjectRegistry::new();
    assert!(registry.blob_names("/p").is_empty());
}

#[test]
fn registry_gives_back_what_was_set() {
    let mut registry = ProjectRegistry::new();
    registry.set_blob_names("/p", vec![String::from("x"), String::from("y")]);
    registry.set_blob_names("/q", vec![String::from("z")]);
    assert_eq!(registry.blob_names("/p"), vec!["x", "y"]);
    assert_eq!(registry.blob_names("/q"), vec!["z"]);
    assert!(registry.blob_names("/r").is_empty());
}

#[test]
fn setting_again_replaces_the_list() {
    let mut registry = ProjectRegistry::new();
    registry.set_blob_names("/p", vec![String::from("x"), String::from("y")]);
    registry.set_blob_names("/p", vec![String::from("y"), String::from("w")]);
    assert_eq!(registry.blob_names("/p"), vec!["y", "w"]);
    assert_eq!(registry.projects.len(), 1);
}

#[test]
fn spellings_of_one_root_share_one_entry() {
    let mut registry = ProjectRegistry::new();
    registry.set_blob_names("C:\\work\\proj", vec![String::from("x")]);
    assert_eq!(registry.blob_names("C:/work/proj"), vec!["x"]);
    registry.set_blob_names("C:/work/proj", vec![String::from("y")]);
    assert_eq!(registry.blob_names("C:\\work\\proj"), vec!["y"]);
    assert_eq!(registry.projects.len(), 1);
}

#[test]
fn names_are_found_by_their_text() {
    let names = vec![String::from("a"), String::from("b")];
    assert!(contains_name(&names, &String::from("b")));
    assert!(!contains_name(&names, &String::from("c")));
    assert!(!contains_name(&Vec::new(), &String::from("a")));
}

#[test]
fn identifier_that_no_blob_has_any_more_is_dropped() {
    let a = blob("a.rs", "a");
    let b = blob("b.rs", "b");
    let c = blob("c.rs", "c");
    let d = blob("d.rs", "d");
    let registry = vec![a.identifier(), b.identifier(), c.identifier()];
    let collected = vec![b.duplicate(), c.duplicate(), d.duplicate()];
    let plan = plan_upload(&collected, &registry);
    assert_eq!(plan.existing, vec![b.identifier(), c.identifier()]);
    assert_eq!(paths(&plan.new_blobs), vec!["d.rs"]);
    assert!(!plan.existing.contains(&a.identifier()));
    let mut merged = plan.existing;
    merged.push(d.identifier());
    assert_eq!(merged, vec![b.identifier(), c.identifier(), d.identifier()]);
}

#[test]
fn changed_file_is_uploaded_and_its_old_identifier_dropped() {
    let before = blob("a.rs", "old");
    let after = blob("a.rs", "new");
    let plan = plan_upload(&vec![after.duplicate()], &vec![before.identifier()]);
    assert!(plan.existing.is_empty());
    assert_eq!(plan.new_blobs.len(), 1);
    assert_eq!(plan.new_blobs[0].content, "new");
}

#[test]
fn first_run_uploads_everything() {
    let collected = vec![blob("a", "1"), blob("b", "2")];
    let plan = plan_upload(&collected, &Vec::new());
    assert!(plan.existing.is_empty());
    assert_eq!(paths(&plan.new_blobs), vec!["a", "b"]);
}

#[test]
fn unchanged_project_uploads_nothing() {
    let collected = vec![blob("a", "1"), blob("b", "2")];
    let registry = vec![sha256_hex("b", "2"), sha256_hex("a", "1")];
    let plan = plan_upload(&collected, &registry);
    assert_eq!(plan.existing, vec![sha256_hex("a", "1"), sha256_hex("b", "2")]);
    assert!(plan.new_blobs.is_empty());
}

#[test]
fn blob_that_occurs_twice_is_planned_once() {
    let collected = vec![blob("a", "1"), blob("b", "2"), blob("a", "1"), blob("b", "2")];
    let plan = plan_upload(&collected, &vec![sha256_hex("b", "2")]);
    assert_eq!(plan.existing, vec![sha256_hex("b", "2")]);
    assert_eq!(paths(&plan.new_blobs), vec!["a"]);
}

#[test]
fn of_blobs_with_one_identifier_the_last_is_uploaded() {
    let collected = vec![blob("ab", "c"), blob("x", "y"), blob("a", "bc")];
    let plan = plan_upload(&collected, &Vec::new());
    assert_eq!(paths(&plan.new_blobs), vec!["x", "a"]);
    assert_eq!(plan.new_blobs[1].content, "bc");
}

#[test]
fn nothing_collected_keeps_and_uploads_nothing() {
    let plan = plan_upload(&Vec::new(), &vec![String::from("x")]);
    assert!(plan.existing.is_empty());
    assert!(plan.new_blobs.is_empty());
}
