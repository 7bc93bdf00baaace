use fokus_editor::error::StoreError;
use fokus_editor::git::{
    changed_paths, get_ahead_count, get_git_status, shows, upstream_reference, Ahead, Change,
    PathStatus, WorkingTree,
};
use fokus_editor::settings::AppSettings;
use git2::Status;

fn configured() -> AppSettings {
    AppSettings {
        repository_path: "/srv/blog".to_string(),
        articles_path: "posts".to_string(),
        is_configured: true,
    }
}

fn entry(path: &str, status: Status) -> PathStatus {
    PathStatus { path: Some(path.to_string()), flags: status.bits() }
}

fn tree(entries: Vec<PathStatus>) -> WorkingTree {
    WorkingTree { head: Ok(Some("main".to_string())), entries: Ok(entries), ahead: Ahead::NoUpstream }
}

#[test]
fn a_change_shows_in_the_working_tree_or_in_the_index() {
    let all = [
        Status::CURRENT,
        Status::INDEX_NEW,
        Status::INDEX_MODIFIED,
        Status::INDEX_DELETED,
        Status::INDEX_RENAMED,
        Status::INDEX_TYPECHANGE,
        Status::WT_NEW,
        Status::WT_MODIFIED,
        Status::WT_DELETED,
        Status::WT_TYPECHANGE,
        Status::WT_RENAMED,
        Status::IGNORED,
        Status::CONFLICTED,
    ];
    for status in all {
        let flags = status.bits();
        assert_eq!(shows(flags, Change::Modified), status == Status::WT_MODIFIED || status == Status::INDEX_MODIFIED);
        assert_eq!(shows(flags, Change::Added), status == Status::WT_NEW || status == Status::INDEX_NEW);
        assert_eq!(shows(flags, Change::Deleted), status == Status::WT_DELETED || status == Status::INDEX_DELETED);
    }
    assert!(shows(0x100, Change::Modified));
    assert!(shows(0x2, Change::Modified));
    assert!(shows(0x80, Change::Added));
    assert!(shows(0x1, Change::Added));
    assert!(shows(0x200, Change::Deleted));
    assert!(shows(0x4, Change::Deleted));
    assert!(!shows(0x100, Change::Added));
    assert!(!shows(0x80, Change::Deleted));
    assert!(!shows(0x200, Change::Modified));
    assert!(!shows(0, Change::Modified) && !shows(0, Change::Added) && !shows(0, Change::Deleted));
}

#[test]
fn changed_paths_come_in_the_order_of_the_entries() {
    let entries = vec![
        entry("b.txt", Status::WT_MODIFIED),
        entry("new.txt", Status::WT_NEW),
        entry("a.txt", Status::INDEX_MODIFIED | Status::WT_MODIFIED),
        PathStatus { path: None, flags: Status::WT_MODIFIED.bits() },
        entry("gone.txt", Status::WT_DELETED),
    ];
    assert_eq!(changed_paths(&entries, Change::Modified), vec!["b.txt", "a.txt", ""]);
    assert_eq!(changed_paths(&entries, Change::Added), vec!["new.txt"]);
    assert_eq!(changed_paths(&entries, Change::Deleted), vec!["gone.txt"]);
}

#[test]
fn an_untracked_file_is_reported_as_added() {
    let status = get_git_status(&configured(), Ok(tree(vec![entry("notes.txt", Status::WT_NEW)]))).unwrap();
    assert_eq!(status.branch, "main");
    assert_eq!(status.added, vec!["notes.txt"]);
    assert!(status.modified.is_empty());
    assert!(status.deleted.is_empty());
    assert!(!status.is_clean);
    assert_eq!(status.ahead, 0);
}

#[test]
fn a_tree_without_changes_is_clean() {
    let status = get_git_status(&configured(), Ok(tree(vec![]))).unwrap();
    assert!(status.is_clean);
    assert!(status.added.is_empty() && status.modified.is_empty() && status.deleted.is_empty());
    let status = get_git_status(
        &configured(),
        Ok(tree(vec![entry("target", Status::IGNORED), entry("moved.txt", Status::INDEX_RENAMED)])),
    )
    .unwrap();
    assert!(status.is_clean);
}

#[test]
fn a_path_may_show_more_than_one_change() {
    let status = get_git_status(
        &configured(),
        Ok(tree(vec![
            entry("both.txt", Status::INDEX_NEW | Status::WT_MODIFIED),
            entry("back.txt", Status::INDEX_DELETED | Status::WT_NEW),
        ])),
    )
    .unwrap();
    assert_eq!(status.modified, vec!["both.txt"]);
    assert_eq!(status.added, vec!["both.txt", "back.txt"]);
    assert_eq!(status.deleted, vec!["back.txt"]);
    assert!(!status.is_clean);
}

#[test]
fn a_head_without_a_name_is_reported_as_unknown() {
    let found = WorkingTree { head: Ok(None), entries: Ok(vec![]), ahead: Ahead::NoUpstream };
    assert_eq!(get_git_status(&configured(), Ok(found)).unwrap().branch, "unknown");
}

#[test]
fn the_count_ahead_is_nought_without_an_upstream() {
    assert!(matches!(get_ahead_count(Ahead::NoUpstream), Ok(0)));
    let found = WorkingTree { head: Ok(Some("main".to_string())), entries: Ok(vec![]), ahead: Ahead::NoUpstream };
    assert_eq!(get_git_status(&configured(), Ok(found)).unwrap().ahead, 0);
}

#[test]
fn the_count_ahead_is_what_was_counted() {
    assert!(matches!(get_ahead_count(Ahead::Counted(Ok(3))), Ok(3)));
    assert!(matches!(get_ahead_count(Ahead::Counted(Ok(0))), Ok(0)));
    let found = WorkingTree { head: Ok(Some("main".to_string())), entries: Ok(vec![]), ahead: Ahead::Counted(Ok(7)) };
    assert_eq!(get_git_status(&configured(), Ok(found)).unwrap().ahead, 7);
}

#[test]
fn a_count_ahead_beyond_the_range_wraps_around() {
    assert!(matches!(get_ahead_count(Ahead::Counted(Ok(2_147_483_647))), Ok(i32::MAX)));
    assert!(matches!(get_ahead_count(Ahead::Counted(Ok(2_147_483_648))), Ok(i32::MIN)));
}

#[test]
fn a_count_ahead_that_could_not_be_had_is_an_error_of_its_own_and_nought_in_a_report() {
    match get_ahead_count(Ahead::HeadUnresolved("no head".to_string())) {
        Err(StoreError::RepositoryUnavailable { detail }) => assert_eq!(detail, "no head"),
        other => panic!("unexpected: {:?}", other),
    }
    match get_ahead_count(Ahead::NoLocalTarget) {
        Err(StoreError::RepositoryUnavailable { detail }) => assert_eq!(detail, "No local target"),
        other => panic!("unexpected: {:?}", other),
    }
    match get_ahead_count(Ahead::Counted(Err("walk failed".to_string()))) {
        Err(StoreError::IoFailure { detail }) => assert_eq!(detail, "walk failed"),
        other => panic!("unexpected: {:?}", other),
    }
    for ahead in [
        Ahead::HeadUnresolved("no head".to_string()),
        Ahead::NoLocalTarget,
        Ahead::Counted(Err("walk failed".to_string())),
    ] {
        let found = WorkingTree { head: Ok(Some("main".to_string())), entries: Ok(vec![]), ahead };
        assert_eq!(get_git_status(&configured(), Ok(found)).unwrap().ahead, 0);
    }
}

#[test]
fn the_upstream_is_the_branch_of_the_same_name_under_origin() {
    assert_eq!(upstream_reference(&Some("main".to_string())), "refs/remotes/origin/main");
    assert_eq!(upstream_reference(&Some("feature/x".to_string())), "refs/remotes/origin/feature/x");
    assert_eq!(upstream_reference(&None), "refs/remotes/origin/main");
}

#[test]
fn a_repository_that_cannot_be_read_is_unavailable() {
    let unconfigured = AppSettings { repository_path: String::new(), articles_path: String::new(), is_configured: false };
    assert!(matches!(
        get_git_status(&unconfigured, Ok(tree(vec![]))),
        Err(StoreError::NotConfigured { missing: None })
    ));
    match get_git_status(&configured(), Err("not a repository".to_string())) {
        Err(StoreError::RepositoryUnavailable { detail }) => assert_eq!(detail, "not a repository"),
        other => panic!("unexpected: {:?}", other),
    }
    let found = WorkingTree { head: Err("no commits yet".to_string()), entries: Ok(vec![]), ahead: Ahead::NoUpstream };
    match get_git_status(&configured(), Ok(found)) {
        Err(StoreError::RepositoryUnavailable { detail }) => assert_eq!(detail, "no commits yet"),
        other => panic!("unexpected: {:?}", other),
    }
    let found = WorkingTree {
        head: Ok(Some("main".to_string())),
        entries: Err("index is locked".to_string()),
        ahead: Ahead::NoUpstream,
    };
    match get_git_status(&configured(), Ok(found)) {
        Err(StoreError::IoFailure { detail }) => assert_eq!(detail, "index is locked"),
        other => panic!("unexpected: {:?}", other),
    }
}
