use vstd::prelude::*;
use vstd::string::StringExecFns;
use crate::error::{ErrorView, StoreError};
use crate::git::unnamed_upstream_branch;
use crate::text::{text_or, texts};
use crate::settings::AppSettings;

verus! {

/// How the external client ended: whether it reported success, and what it wrote to its
/// error stream.
#[derive(Debug)]
pub struct ClientExit {
    pub success: bool,
    pub diagnostic: String,
}

/// What has just happened while commits are being pushed: the step that was tried, with its
/// outcome. A step that did not succeed carries the reason as a text.
#[derive(Debug)]
pub enum PushProgress {
    /// Nothing has been tried yet.
    Begin,
    RepositoryOpened(Result<(), String>),
    RemoteFound(Result<(), String>),
    /// The head was resolved: its short name, where it has one that is valid UTF-8.
    HeadResolved(Result<Option<String>, String>),
    /// The client was run: how it ended, or why it could not be started.
    ClientRan(Result<ClientExit, String>),
}

/// The step to take next while commits are being pushed.
#[derive(Debug)]
pub enum PushAction {
    OpenRepository { path: String },
    FindRemote { name: String },
    ResolveHead,
    /// Run the program with the arguments in the directory, and wait for it to end.
    RunClient { program: String, directory: String, arguments: Vec<String> },
    /// Nothing is left to do.
    Finish(Result<(), StoreError>),
}

/// What a `PushAction` says, with its texts as sequences of characters.
pub enum PushActionView {
    OpenRepository(Seq<char>),
    FindRemote(Seq<char>),
    ResolveHead,
    RunClient(Seq<char>, Seq<char>, Seq<Seq<char>>),
    Finish(Result<(), ErrorView>),
}

impl View for PushAction {
    type V = PushActionView;

    open spec fn view(&self) -> PushActionView {
        match self {
            PushAction::OpenRepository { path } => PushActionView::OpenRepository(path@),
            PushAction::FindRemote { name } => PushActionView::FindRemote(name@),
            PushAction::ResolveHead => PushActionView::ResolveHead,
            PushAction::RunClient { program, directory, arguments } => PushActionView::RunClient(
                program@,
                directory@,
                texts(arguments@),
            ),
            PushAction::Finish(Ok(_)) => PushActionView::Finish(Ok(())),
            PushAction::Finish(Err(error)) => PushActionView::Finish(Err(error@)),
        }
    }
}

/// The remote that commits are pushed to.
pub open spec fn remote_name() -> Seq<char> {
    "origin"@
}

/// The arguments that the client is run with to push a branch.
pub open spec fn push_arguments(branch: Seq<char>) -> Seq<Seq<char>> {
    seq!["push"@, remote_name(), branch]
}

/// The step that follows what has just happened.
pub open spec fn next_push_action(settings: AppSettings, progress: PushProgress) -> PushActionView {
    match progress {
        PushProgress::Begin => if settings.is_configured {
            PushActionView::OpenRepository(settings.repository_path@)
        } else {
            PushActionView::Finish(Err(ErrorView::NotConfigured(None)))
        },
        PushProgress::RepositoryOpened(Ok(_)) => PushActionView::FindRemote(remote_name()),
        PushProgress::RepositoryOpened(Err(detail)) => PushActionView::Finish(
            Err(ErrorView::RepositoryUnavailable(detail@)),
        ),
        PushProgress::RemoteFound(Ok(_)) => PushActionView::ResolveHead,
        PushProgress::RemoteFound(Err(detail)) => PushActionView::Finish(
            Err(ErrorView::RepositoryUnavailable(detail@)),
        ),
        PushProgress::HeadResolved(Ok(name)) => PushActionView::RunClient(
            "git"@,
            settings.repository_path@,
            push_arguments(text_or(name, unnamed_upstream_branch())),
        ),
        PushProgress::HeadResolved(Err(detail)) => PushActionView::Finish(
            Err(ErrorView::RepositoryUnavailable(detail@)),
        ),
        PushProgress::ClientRan(Ok(exit)) => if exit.success {
            PushActionView::Finish(Ok(()))
        } else {
            PushActionView::Finish(Err(ErrorView::PushFailed(exit.diagnostic@)))
        },
        PushProgress::ClientRan(Err(detail)) => PushActionView::Finish(
            Err(ErrorView::IoFailure(detail@)),
        ),
    }
}

/// Decides the next step of a push of the current branch to the remote `origin`.
///
/// The caller starts with `PushProgress::Begin`, takes each step that comes back and hands in
/// what happened, until `PushAction::Finish` comes back. The push itself is left to the
/// external client, which is run in the repository with the branch's short name; what it
/// writes to its error stream is reported where it fails.
pub fn git_push(settings: &AppSettings, progress: PushProgress) -> (r: PushAction)
    ensures
        r@ == next_push_action(*settings, progress),
{
    match progress {
        PushProgress::Begin => if settings.is_configured {
            PushAction::OpenRepository { path: settings.repository_path.clone() }
        } else {
            PushAction::Finish(Err(StoreError::NotConfigured { missing: None }))
        },
        PushProgress::RepositoryOpened(Ok(_)) => PushAction::FindRemote {
            name: String::from_str("origin"),
        },
        PushProgress::RepositoryOpened(Err(detail)) => PushAction::Finish(
            Err(StoreError::RepositoryUnavailable { detail }),
        ),
        PushProgress::RemoteFound(Ok(_)) => PushAction::ResolveHead,
        PushProgress::RemoteFound(Err(detail)) => PushAction::Finish(
            Err(StoreError::RepositoryUnavailable { detail }),
        ),
        PushProgress::HeadResolved(Ok(name)) => {
            let branch = match name {
                Some(text) => text,
                None => String::from_str("main"),
            };
            let mut arguments: Vec<String> = Vec::new();
            arguments.push(String::from_str("push"));
            arguments.push(String::from_str("origin"));
            arguments.push(branch);
            proof {
                assert(texts(arguments@) =~= push_arguments(branch@));
            }
            PushAction::RunClient {
                program: String::from_str("git"),
                directory: settings.repository_path.clone(),
                arguments,
            }
        },
        PushProgress::HeadResolved(Err(detail)) => PushAction::Finish(
            Err(StoreError::RepositoryUnavailable { detail }),
        ),
        PushProgress::ClientRan(Ok(exit)) => if exit.success {
            PushAction::Finish(Ok(()))
        } else {
            PushAction::Finish(Err(StoreError::PushFailed { diagnostic: exit.diagnostic }))
        },
        PushProgress::ClientRan(Err(detail)) => PushAction::Finish(
            Err(StoreError::IoFailure { detail }),
        ),
    }
}

/// How far along a step is in a push.
pub open spec fn push_rank(action: PushActionView) -> int {
    match action {
        PushActionView::OpenRepository(_) => 0,
        PushActionView::FindRemote(_) => 1,
        PushActionView::ResolveHead => 2,
        PushActionView::RunClient(_, _, _) => 3,
        PushActionView::Finish(_) => 4,
    }
}

/// How far along the step is whose outcome is handed in.
pub open spec fn push_answered(progress: PushProgress) -> int {
    match progress {
        PushProgress::Begin => -1,
        PushProgress::RepositoryOpened(_) => 0,
        PushProgress::RemoteFound(_) => 1,
        PushProgress::HeadResolved(_) => 2,
        PushProgress::ClientRan(_) => 3,
    }
}

/// A push never goes back: the step that follows an outcome is further along than the step
/// that was answered. The client is run only once the head was resolved, and a push
/// succeeds only where the client reported success.
pub proof fn lemma_push_advances(settings: AppSettings, progress: PushProgress)
    ensures
        push_answered(progress) < push_rank(next_push_action(settings, progress)) <= 4,
        next_push_action(settings, progress) is RunClient <==> progress is HeadResolved
            && progress->HeadResolved_0 is Ok,
        next_push_action(settings, progress) == PushActionView::Finish(Ok(())) <==> progress
            is ClientRan && progress->ClientRan_0 is Ok && progress->ClientRan_0->Ok_0.success,
{
}

} // verus!
