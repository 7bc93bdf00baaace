use fokus_editor::commit::{git_commit, CommitAction, CommitProgress};
use fokus_editor::error::StoreError;
use fokus_editor::git::CommitRequest;
use fokus_editor::push::{git_push, ClientExit, PushAction, PushProgress};
use fokus_editor::settings::AppSettings;

fn configured() -> AppSettings {
    AppSettings {
        repository_path: "/srv/blog".to_string(),
        articles_path: "posts".to_string(),
        is_configured: true,
    }
}

fn unconfigured() -> AppSettings {
    AppSettings { repository_path: String::new(), articles_path: String::new(), is_configured: false }
}

fn next(progress: CommitProgress) -> CommitAction {
    git_commit(&configured(), &CommitRequest { message: "Add notes".to_string() }, progress)
}

#[test]
fn a_commit_takes_its_steps_in_order() {
    assert!(matches!(next(CommitProgress::Begin), CommitAction::OpenRepository { path } if path == "/srv/blog"));
    assert!(matches!(next(CommitProgress::RepositoryOpened(Ok(()))), CommitAction::OpenIndex));
    assert!(matches!(next(CommitProgress::IndexOpened(Ok(()))), CommitAction::StageAll { pattern } if pattern == "*"));
    assert!(matches!(next(CommitProgress::Staged(Ok(()))), CommitAction::WriteIndex));
    assert!(matches!(next(CommitProgress::IndexWritten(Ok(()))), CommitAction::WriteTree));
    assert!(matches!(next(CommitProgress::TreeWritten(Ok(()))), CommitAction::FindTree));
    assert!(matches!(next(CommitProgress::TreeFound(Ok(()))), CommitAction::ReadSignature));
    assert!(matches!(next(CommitProgress::SignatureRead(Ok(()))), CommitAction::ResolveHead));
    assert!(matches!(next(CommitProgress::HeadResolved(Ok(()))), CommitAction::FindParent));
    assert!(matches!(
        next(CommitProgress::ParentFound(Ok(()))),
        CommitAction::Commit { reference, message } if reference == "HEAD" && message == "Add notes"
    ));
    assert!(matches!(
        next(CommitProgress::Committed(Ok("0123abcd".to_string()))),
        CommitAction::Finish(Ok(id)) if id == "0123abcd"
    ));
}

#[test]
fn a_commit_is_signed_by_default_where_no_identity_is_configured() {
    assert!(matches!(next(CommitProgress::SignatureRead(Err("no signature".to_string()))), CommitAction::ReadIdentity));
    assert!(matches!(
        next(CommitProgress::IdentityRead { name: None, email: None }),
        CommitAction::MakeSignature { name, email } if name == "Unknown" && email == "unknown@example.com"
    ));
    assert!(matches!(
        next(CommitProgress::IdentityRead { name: Some("Ada".to_string()), email: None }),
        CommitAction::MakeSignature { name, email } if name == "Ada" && email == "unknown@example.com"
    ));
    assert!(matches!(
        next(CommitProgress::IdentityRead { name: None, email: Some("ada@example.org".to_string()) }),
        CommitAction::MakeSignature { name, email } if name == "Unknown" && email == "ada@example.org"
    ));
    assert!(matches!(next(CommitProgress::SignatureMade(Ok(()))), CommitAction::ResolveHead));
}

#[test]
fn a_commit_ends_where_the_repository_is_unavailable() {
    let failed = || Err("it failed".to_string());
    for progress in [
        CommitProgress::RepositoryOpened(failed()),
        CommitProgress::HeadResolved(failed()),
        CommitProgress::ParentFound(failed()),
    ] {
        match next(progress) {
            CommitAction::Finish(Err(StoreError::RepositoryUnavailable { detail })) => assert_eq!(detail, "it failed"),
            other => panic!("unexpected: {:?}", other),
        }
    }
}

#[test]
fn a_commit_ends_where_a_step_fails_underneath() {
    let failed = || Err("it failed".to_string());
    for progress in [
        CommitProgress::IndexOpened(failed()),
        CommitProgress::Staged(failed()),
        CommitProgress::IndexWritten(failed()),
        CommitProgress::TreeWritten(failed()),
        CommitProgress::TreeFound(failed()),
        CommitProgress::SignatureMade(failed()),
        CommitProgress::Committed(Err("it failed".to_string())),
    ] {
        match next(progress) {
            CommitAction::Finish(Err(StoreError::IoFailure { detail })) => assert_eq!(detail, "it failed"),
            other => panic!("unexpected: {:?}", other),
        }
    }
}

#[test]
fn nothing_is_committed_before_a_repository_is_configured() {
    let action = git_commit(&unconfigured(), &CommitRequest { message: "Add notes".to_string() }, CommitProgress::Begin);
    assert!(matches!(action, CommitAction::Finish(Err(StoreError::NotConfigured { missing: None }))));
}

#[test]
fn a_push_takes_its_steps_in_order() {
    let settings = configured();
    assert!(matches!(git_push(&settings, PushProgress::Begin), PushAction::OpenRepository { path } if path == "/srv/blog"));
    assert!(matches!(
        git_push(&settings, PushProgress::RepositoryOpened(Ok(()))),
        PushAction::FindRemote { name } if name == "origin"
    ));
    assert!(matches!(git_push(&settings, PushProgress::RemoteFound(Ok(()))), PushAction::ResolveHead));
    match git_push(&settings, PushProgress::HeadResolved(Ok(Some("drafts".to_string())))) {
        PushAction::RunClient { program, directory, arguments } => {
            assert_eq!(program, "git");
            assert_eq!(directory, "/srv/blog");
            assert_eq!(arguments, vec!["push", "origin", "drafts"]);
        }
        other => panic!("unexpected: {:?}", other),
    }
    match git_push(&settings, PushProgress::HeadResolved(Ok(None))) {
        PushAction::RunClient { arguments, .. } => assert_eq!(arguments, vec!["push", "origin", "main"]),
        other => panic!("unexpected: {:?}", other),
    }
    let exit = ClientExit { success: true, diagnostic: "Everything up-to-date".to_string() };
    assert!(matches!(git_push(&settings, PushProgress::ClientRan(Ok(exit))), PushAction::Finish(Ok(()))));
}

#[test]
fn a_push_that_the_client_refuses_carries_its_diagnostic() {
    let exit = ClientExit { success: false, diagnostic: "fatal: Authentication failed".to_string() };
    match git_push(&configured(), PushProgress::ClientRan(Ok(exit))) {
        PushAction::Finish(Err(StoreError::PushFailed { diagnostic })) => {
            assert_eq!(diagnostic, "fatal: Authentication failed")
        }
        other => panic!("unexpected: {:?}", other),
    }
}

#[test]
fn a_push_ends_where_a_step_fails() {
    let settings = configured();
    for progress in [
        PushProgress::RepositoryOpened(Err("it failed".to_string())),
        PushProgress::RemoteFound(Err("it failed".to_string())),
        PushProgress::HeadResolved(Err("it failed".to_string())),
    ] {
        match git_push(&settings, progress) {
            PushAction::Finish(Err(StoreError::RepositoryUnavailable { detail })) => assert_eq!(detail, "it failed"),
            other => panic!("unexpected: {:?}", other),
        }
    }
    match git_push(&settings, PushProgress::ClientRan(Err("no such program".to_string()))) {
        PushAction::Finish(Err(StoreError::IoFailure { detail })) => assert_eq!(detail, "no such program"),
        other => panic!("unexpected: {:?}", other),
    }
    assert!(matches!(
        git_push(&unconfigured(), PushProgress::Begin),
        PushAction::Finish(Err(StoreError::NotConfigured { missing: None }))
    ));
}
