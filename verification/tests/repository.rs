use fokus_editor::git::{get_git_status, upstream_reference, Ahead, PathStatus, WorkingTree};
use fokus_editor::settings::AppSettings;
use git2::build::CheckoutBuilder;
use git2::{Repository, Signature, StatusOptions};

fn read(repository: &Repository) -> WorkingTree {
    let mut options = StatusOptions::new();
    options.include_untracked(true);
    let statuses = repository.statuses(Some(&mut options)).unwrap();
    let entries = statuses
        .iter()
        .map(|entry| PathStatus { path: entry.path().map(|p| p.to_string()), flags: entry.status().bits() })
        .collect();
    let head = repository.head().unwrap();
    let name = head.shorthand().map(|s| s.to_string());
    let upstream = repository.find_reference(&upstream_reference(&name)).ok().and_then(|found| found.target());
    let ahead = match (head.target(), upstream) {
        (None, _) => Ahead::NoLocalTarget,
        (Some(_), None) => Ahead::NoUpstream,
        (Some(local), Some(upstream)) => Ahead::Counted(
            repository.graph_ahead_behind(local, upstream).map(|(ahead, _)| ahead).map_err(|e| e.to_string()),
        ),
    };
    WorkingTree { head: Ok(name), entries: Ok(entries), ahead }
}

#[test]
fn a_new_file_is_added_until_it_is_committed() {
    let now = std::time::SystemTime::now().duration_since(std::time::UNIX_EPOCH).unwrap();
    let root = std::path::PathBuf::from(format!("/tmp/fokus-editor-{}", now.as_nanos()));
    let repository = Repository::init(&root).unwrap();
    let signature = Signature::now("Ada", "ada@example.org").unwrap();
    let empty = repository.index().unwrap().write_tree().unwrap();
    let tree = repository.find_tree(empty).unwrap();
    repository.commit(Some("HEAD"), &signature, &signature, "first", &tree, &[]).unwrap();
    let settings = AppSettings {
        repository_path: root.to_string_lossy().to_string(),
        articles_path: "posts".to_string(),
        is_configured: true,
    };

    let status = get_git_status(&settings, Ok(read(&repository))).unwrap();
    assert!(status.is_clean);
    assert_eq!(status.ahead, 0);

    let blob = repository.blob(b"some notes").unwrap();
    let mut builder = repository.treebuilder(None).unwrap();
    builder.insert("notes.txt", blob, 0o100644).unwrap();
    let with_notes = repository.find_object(builder.write().unwrap(), None).unwrap();
    let mut checkout = CheckoutBuilder::new();
    checkout.force().update_index(false);
    repository.checkout_tree(&with_notes, Some(&mut checkout)).unwrap();
    let status = get_git_status(&settings, Ok(read(&repository))).unwrap();
    assert_eq!(status.added, vec!["notes.txt"]);
    assert!(!status.is_clean);

    let mut index = repository.index().unwrap();
    index.add_all(["*"].iter(), git2::IndexAddOption::DEFAULT, None).unwrap();
    index.write().unwrap();
    let tree = repository.find_tree(index.write_tree().unwrap()).unwrap();
    let parent = repository.head().unwrap().peel_to_commit().unwrap();
    repository.commit(Some("HEAD"), &signature, &signature, "second", &tree, &[&parent]).unwrap();
    let status = get_git_status(&settings, Ok(read(&repository))).unwrap();
    assert!(status.added.is_empty() && status.modified.is_empty() && status.deleted.is_empty());
    assert!(status.is_clean);
    assert_eq!(status.ahead, 0);

    let first = repository.head().unwrap().peel_to_commit().unwrap().parent(0).unwrap();
    let branch = repository.head().unwrap().shorthand().unwrap().to_string();
    repository
        .reference(&upstream_reference(&Some(branch)), first.id(), true, "an upstream one commit behind")
        .unwrap();
    let status = get_git_status(&settings, Ok(read(&repository))).unwrap();
    assert_eq!(status.ahead, 1);
}
