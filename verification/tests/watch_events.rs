use vulcan::watcher::{is_commit_event, path_marks_commit, ChangedPath};

fn path(file_name: Option<&str>, display: &str) -> ChangedPath {
    ChangedPath { file_name: file_name.map(String::from), display: String::from(display) }
}

#[test]
fn head_and_branch_refs_mark_commits() {
    assert!(path_marks_commit(&path(Some("HEAD"), "/repo/.git/logs/HEAD")));
    assert!(path_marks_commit(&path(Some("main"), "/repo/.git/refs/heads/main")));
    assert!(!path_marks_commit(&path(Some("index"), "/repo/.git/index")));
    assert!(!path_marks_commit(&path(Some("ORIG_HEAD"), "/repo/.git/ORIG_HEAD")));
    assert!(!path_marks_commit(&path(None, "/")));
}

#[test]
fn a_batch_with_one_commit_path_is_a_commit() {
    assert!(is_commit_event(&vec![path(Some("index.lock"), "/r/.git/index.lock"), path(Some("HEAD"), "/r/.git/HEAD")]));
    assert!(!is_commit_event(&vec![path(Some("index.lock"), "/r/.git/index.lock"), path(Some("config"), "/r/.git/config")]));
    assert!(!is_commit_event(&Vec::new()));
}
