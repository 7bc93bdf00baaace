use vstd::prelude::*;
use vstd::string::StringExecFns;
use crate::error::{ErrorView, StoreError};
use crate::git::CommitRequest;
use crate::text::text_or;
use crate::settings::AppSettings;

verus! {

/// What has just happened while a commit is being made: the step that was tried, with its
/// outcome. A step that did not succeed carries the reason as a text.
#[derive(Debug)]
pub enum CommitProgress {
    /// Nothing has been tried yet.
    Begin,
    RepositoryOpened(Result<(), String>),
    IndexOpened(Result<(), String>),
    Staged(Result<(), String>),
    IndexWritten(Result<(), String>),
    TreeWritten(Result<(), String>),
    TreeFound(Result<(), String>),
    /// The signature that the repository's configuration gives was asked for.
    SignatureRead(Result<(), String>),
    /// The configured name and address were looked up one by one; each is `None` where it is
    /// not set or the configuration cannot be read.
    IdentityRead { name: Option<String>, email: Option<String> },
    SignatureMade(Result<(), String>),
    HeadResolved(Result<(), String>),
    ParentFound(Result<(), String>),
    /// The commit was written: its identifier, or why it could not be written.
    Committed(Result<String, String>),
}

/// The step to take next while a commit is being made.
#[derive(Debug)]
pub enum CommitAction {
    OpenRepository { path: String },
    OpenIndex,
    /// Add every path that matches the pattern to the index: new, changed and deleted ones.
    StageAll { pattern: String },
    WriteIndex,
    WriteTree,
    FindTree,
    ReadSignature,
    ReadIdentity,
    /// Make a signature of this name and address, at the present time.
    MakeSignature { name: String, email: String },
    ResolveHead,
    /// Find the commit that the head points at: the only parent of the new commit.
    FindParent,
    /// Write the commit with the tree, the signature and the parent found so far, and move
    /// the reference to it.
    Commit { reference: String, message: String },
    /// Nothing is left to do: the identifier of the new commit, or the error.
    Finish(Result<String, StoreError>),
}

/// What a `CommitAction` says, with its texts as sequences of characters.
pub enum CommitActionView {
    OpenRepository(Seq<char>),
    OpenIndex,
    StageAll(Seq<char>),
    WriteIndex,
    WriteTree,
    FindTree,
    ReadSignature,
    ReadIdentity,
    MakeSignature(Seq<char>, Seq<char>),
    ResolveHead,
    FindParent,
    Commit(Seq<char>, Seq<char>),
    Finish(Result<Seq<char>, ErrorView>),
}

impl View for CommitAction {
    type V = CommitActionView;

    open spec fn view(&self) -> CommitActionView {
        match self {
            CommitAction::OpenRepository { path } => CommitActionView::OpenRepository(path@),
            CommitAction::OpenIndex => CommitActionView::OpenIndex,
            CommitAction::StageAll { pattern } => CommitActionView::StageAll(pattern@),
            CommitAction::WriteIndex => CommitActionView::WriteIndex,
            CommitAction::WriteTree => CommitActionView::WriteTree,
            CommitAction::FindTree => CommitActionView::FindTree,
            CommitAction::ReadSignature => CommitActionView::ReadSignature,
            CommitAction::ReadIdentity => CommitActionView::ReadIdentity,
            CommitAction::MakeSignature { name, email } => CommitActionView::MakeSignature(
                name@,
                email@,
            ),
            CommitAction::ResolveHead => CommitActionView::ResolveHead,
            CommitAction::FindParent => CommitActionView::FindParent,
            CommitAction::Commit { reference, message } => CommitActionView::Commit(
                reference@,
                message@,
            ),
            CommitAction::Finish(Ok(id)) => CommitActionView::Finish(Ok(id@)),
            CommitAction::Finish(Err(error)) => CommitActionView::Finish(Err(error@)),
        }
    }
}

/// The name that signs a commit where none is configured.
pub open spec fn unknown_name() -> Seq<char> {
    "Unknown"@
}

/// The address that signs a commit where none is configured.
pub open spec fn unknown_email() -> Seq<char> {
    "unknown@example.com"@
}

/// The step that follows a step that could fail: `then` where it succeeded, else the end,
/// with the repository reported as unavailable where `unavailable` says so and as failing
/// underneath where it does not.
pub open spec fn after(
    outcome: Result<(), String>,
    unavailable: bool,
    then: CommitActionView,
) -> CommitActionView {
    match outcome {
        Ok(_) => then,
        Err(detail) => if unavailable {
            CommitActionView::Finish(Err(ErrorView::RepositoryUnavailable(detail@)))
        } else {
            CommitActionView::Finish(Err(ErrorView::IoFailure(detail@)))
        },
    }
}

/// The step that follows what has just happened.
pub open spec fn next_commit_action(
    settings: AppSettings,
    message: Seq<char>,
    progress: CommitProgress,
) -> CommitActionView {
    match progress {
        CommitProgress::Begin => if settings.is_configured {
            CommitActionView::OpenRepository(settings.repository_path@)
        } else {
            CommitActionView::Finish(Err(ErrorView::NotConfigured(None)))
        },
        CommitProgress::RepositoryOpened(outcome) => after(
            outcome,
            true,
            CommitActionView::OpenIndex,
        ),
        CommitProgress::IndexOpened(outcome) => after(
            outcome,
            false,
            CommitActionView::StageAll("*"@),
        ),
        CommitProgress::Staged(outcome) => after(outcome, false, CommitActionView::WriteIndex),
        CommitProgress::IndexWritten(outcome) => after(
            outcome,
            false,
            CommitActionView::WriteTree,
        ),
        CommitProgress::TreeWritten(outcome) => after(outcome, false, CommitActionView::FindTree),
        CommitProgress::TreeFound(outcome) => after(
            outcome,
            false,
            CommitActionView::ReadSignature,
        ),
        CommitProgress::SignatureRead(outcome) => match outcome {
            Ok(_) => CommitActionView::ResolveHead,
            Err(_) => CommitActionView::ReadIdentity,
        },
        CommitProgress::IdentityRead { name, email } => CommitActionView::MakeSignature(
            text_or(name, unknown_name()),
            text_or(email, unknown_email()),
        ),
        CommitProgress::SignatureMade(outcome) => after(
            outcome,
            false,
            CommitActionView::ResolveHead,
        ),
        CommitProgress::HeadResolved(outcome) => after(
            outcome,
            true,
            CommitActionView::FindParent,
        ),
        CommitProgress::ParentFound(outcome) => after(
            outcome,
            true,
            CommitActionView::Commit("HEAD"@, message),
        ),
        CommitProgress::Committed(Ok(id)) => CommitActionView::Finish(Ok(id@)),
        CommitProgress::Committed(Err(detail)) => CommitActionView::Finish(
            Err(ErrorView::IoFailure(detail@)),
        ),
    }
}

/// Ends the run where a step failed, and goes on with `then` where it did not.
fn proceed(outcome: Result<(), String>, unavailable: bool, then: CommitAction) -> (r:
    CommitAction)
    ensures
        r@ == after(outcome, unavailable, then@),
{
    match outcome {
        Ok(_) => then,
        Err(detail) => if unavailable {
            CommitAction::Finish(Err(StoreError::RepositoryUnavailable { detail }))
        } else {
            CommitAction::Finish(Err(StoreError::IoFailure { detail }))
        },
    }
}

/// Decides the next step of a commit of all changes in the working tree.
///
/// The caller starts with `CommitProgress::Begin`, takes each step that comes back and hands
/// in what happened, until `CommitAction::Finish` comes back. The steps stage every change,
/// write the index and a tree of it, take the configured signature or, where there is none,
/// one made of the configured name and address with a default for each that is not set, and
/// write a commit whose only parent is the commit at the head. A step that fails ends the
/// run, except that a missing signature never does.
pub fn git_commit(settings: &AppSettings, request: &CommitRequest, progress: CommitProgress) -> (r:
    CommitAction)
    ensures
        r@ == next_commit_action(*settings, request.message@, progress),
{
    match progress {
        CommitProgress::Begin => if settings.is_configured {
            CommitAction::OpenRepository { path: settings.repository_path.clone() }
        } else {
            CommitAction::Finish(Err(StoreError::NotConfigured { missing: None }))
        },
        CommitProgress::RepositoryOpened(outcome) => proceed(
            outcome,
            true,
            CommitAction::OpenIndex,
        ),
        CommitProgress::IndexOpened(outcome) => proceed(
            outcome,
            false,
            CommitAction::StageAll { pattern: String::from_str("*") },
        ),
        CommitProgress::Staged(outcome) => proceed(outcome, false, CommitAction::WriteIndex),
        CommitProgress::IndexWritten(outcome) => proceed(outcome, false, CommitAction::WriteTree),
        CommitProgress::TreeWritten(outcome) => proceed(outcome, false, CommitAction::FindTree),
        CommitProgress::TreeFound(outcome) => proceed(
            outcome,
            false,
            CommitAction::ReadSignature,
        ),
        CommitProgress::SignatureRead(outcome) => match outcome {
            Ok(_) => CommitAction::ResolveHead,
            Err(_) => CommitAction::ReadIdentity,
        },
        CommitProgress::IdentityRead { name, email } => {
            let name = match name {
                Some(text) => text,
                None => String::from_str("Unknown"),
            };
            let email = match email {
                Some(text) => text,
                None => String::from_str("unknown@example.com"),
            };
            CommitAction::MakeSignature { name, email }
        },
        CommitProgress::SignatureMade(outcome) => proceed(
            outcome,
            false,
            CommitAction::ResolveHead,
        ),
        CommitProgress::HeadResolved(outcome) => proceed(outcome, true, CommitAction::FindParent),
        CommitProgress::ParentFound(outcome) => proceed(
            outcome,
            true,
            CommitAction::Commit {
                reference: String::from_str("HEAD"),
                message: request.message.clone(),
            },
        ),
        CommitProgress::Committed(Ok(id)) => CommitAction::Finish(Ok(id)),
        CommitProgress::Committed(Err(detail)) => CommitAction::Finish(
            Err(StoreError::IoFailure { detail }),
        ),
    }
}

/// How far along a step is in the making of a commit.
pub open spec fn commit_rank(action: CommitActionView) -> int {
    match action {
        CommitActionView::OpenRepository(_) => 0,
        CommitActionView::OpenIndex => 1,
        CommitActionView::StageAll(_) => 2,
        CommitActionView::WriteIndex => 3,
        CommitActionView::WriteTree => 4,
        CommitActionView::FindTree => 5,
        CommitActionView::ReadSignature => 6,
        CommitActionView::ReadIdentity => 7,
        CommitActionView::MakeSignature(_, _) => 8,
        CommitActionView::ResolveHead => 9,
        CommitActionView::FindParent => 10,
        CommitActionView::Commit(_, _) => 11,
        CommitActionView::Finish(_) => 12,
    }
}

/// How far along the step is whose outcome is handed in.
pub open spec fn commit_answered(progress: CommitProgress) -> int {
    match progress {
        CommitProgress::Begin => -1,
        CommitProgress::RepositoryOpened(_) => 0,
        CommitProgress::IndexOpened(_) => 1,
        CommitProgress::Staged(_) => 2,
        CommitProgress::IndexWritten(_) => 3,
        CommitProgress::TreeWritten(_) => 4,
        CommitProgress::TreeFound(_) => 5,
        CommitProgress::SignatureRead(_) => 6,
        CommitProgress::IdentityRead { .. } => 7,
        CommitProgress::SignatureMade(_) => 8,
        CommitProgress::HeadResolved(_) => 9,
        CommitProgress::ParentFound(_) => 10,
        CommitProgress::Committed(_) => 11,
    }
}

/// The making of a commit never goes back: the step that follows an outcome is further
/// along than the step that was answered, so that a caller who answers each step comes to
/// the end after twelve answers at most.
pub proof fn lemma_commit_advances(
    settings: AppSettings,
    message: Seq<char>,
    progress: CommitProgress,
)
    ensures
        commit_answered(progress) < commit_rank(next_commit_action(settings, message, progress))
            <= 12,
{
}

/// The commit is written only once its parent was found, and nothing is written after a
/// step other than the reading of the signature has failed.
pub proof fn lemma_commit_follows_success(
    settings: AppSettings,
    message: Seq<char>,
    progress: CommitProgress,
)
    ensures
        next_commit_action(settings, message, progress) is Commit <==> progress is ParentFound
            && progress->ParentFound_0 is Ok,
        next_commit_action(settings, message, progress) is StageAll <==> progress is IndexOpened
            && progress->IndexOpened_0 is Ok,
{
}

} // verus!
