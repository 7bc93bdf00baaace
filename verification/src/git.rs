use vstd::prelude::*;
use vstd::string::StringExecFns;
use crate::error::{view_result, ErrorView, StoreError};
use crate::git_flags::{
    flags_index_deleted, flags_index_modified, flags_index_new, flags_wt_deleted,
    flags_wt_modified, flags_wt_new,
};
use crate::settings::AppSettings;
use crate::text::{text_or, texts};

verus! {

/// The state of the working tree against the index and the last commit.
#[derive(Debug, Clone)]
pub struct GitStatus {
    pub branch: String,
    pub is_clean: bool,
    pub modified: Vec<String>,
    pub added: Vec<String>,
    pub deleted: Vec<String>,
    pub ahead: i32,
}

/// What a commit is asked to say.
#[derive(Debug)]
pub struct CommitRequest {
    pub message: String,
}

/// A path that the repository reports as changed, with its status flags as libgit2 numbers
/// them. `path` is `None` where the path is not valid UTF-8.
#[derive(Debug)]
pub struct PathStatus {
    pub path: Option<String>,
    pub flags: u32,
}

/// What was found when the number of commits ahead of the upstream branch was asked for.
#[derive(Debug)]
pub enum Ahead {
    /// The head could not be resolved.
    HeadUnresolved(String),
    /// The head does not point at a commit.
    NoLocalTarget,
    /// There is no upstream reference, or it points at no commit.
    NoUpstream,
    /// The commit graph was walked: the number of commits ahead, or why the walk failed.
    Counted(Result<usize, String>),
}

/// What was read from an opened repository for a status report.
#[derive(Debug)]
pub struct WorkingTree {
    /// The short name of the head, where it has one that is valid UTF-8, or why the head
    /// could not be resolved.
    pub head: Result<Option<String>, String>,
    /// The changed paths, untracked files included, or why they could not be listed.
    pub entries: Result<Vec<PathStatus>, String>,
    pub ahead: Ahead,
}

/// Whether flags show a modification, in the working tree or in the index.
pub open spec fn is_modified(flags: u32) -> bool {
    flags & 0x100 != 0 || flags & 0x2 != 0
}

/// Whether flags show a new file, in the working tree or in the index.
pub open spec fn is_added(flags: u32) -> bool {
    flags & 0x80 != 0 || flags & 0x1 != 0
}

/// Whether flags show a deletion, in the working tree or in the index.
pub open spec fn is_deleted(flags: u32) -> bool {
    flags & 0x200 != 0 || flags & 0x4 != 0
}

/// Which of the three change sets an entry is listed in.
#[derive(Clone, Copy, Debug, PartialEq, Eq, Structural)]
pub enum Change {
    Modified,
    Added,
    Deleted,
}

/// Whether flags show the change.
pub open spec fn has_change(flags: u32, change: Change) -> bool {
    match change {
        Change::Modified => is_modified(flags),
        Change::Added => is_added(flags),
        Change::Deleted => is_deleted(flags),
    }
}

/// The paths of the entries that show the change, in the order of the entries.
pub open spec fn paths_with(entries: Seq<PathStatus>, change: Change) -> Seq<Seq<char>>
    decreases entries.len(),
{
    if entries.len() == 0 {
        Seq::empty()
    } else {
        let before = paths_with(entries.drop_last(), change);
        if has_change(entries.last().flags, change) {
            before.push(text_or(entries.last().path, Seq::empty()))
        } else {
            before
        }
    }
}

/// Whether an entry shows the change.
pub fn shows(flags: u32, change: Change) -> (r: bool)
    ensures
        r == has_change(flags, change),
{
    match change {
        Change::Modified => flags_wt_modified(flags) || flags_index_modified(flags),
        Change::Added => flags_wt_new(flags) || flags_index_new(flags),
        Change::Deleted => flags_wt_deleted(flags) || flags_index_deleted(flags),
    }
}

/// The paths of the entries that show the change, in the order of the entries.
pub fn changed_paths(entries: &Vec<PathStatus>, change: Change) -> (r: Vec<String>)
    ensures
        texts(r@) == paths_with(entries@, change),
{
    let mut found: Vec<String> = Vec::new();
    let mut i: usize = 0;
    while i < entries.len()
        invariant
            i <= entries.len(),
            texts(found@) == paths_with(entries@.take(i as int), change),
        decreases entries.len() - i,
    {
        let entry = &entries[i];
        proof {
            assert(entries@.take(i as int + 1).drop_last() == entries@.take(i as int));
            assert(entries@.take(i as int + 1).last() == entries@[i as int]);
        }
        if shows(entry.flags, change) {
            let path = match &entry.path {
                Some(text) => text.clone(),
                None => String::new(),
            };
            proof {
                assert(texts(found@.push(path)) == texts(found@).push(path@));
            }
            found.push(path);
        }
        i += 1;
    }
    proof {
        assert(entries@.take(i as int) == entries@);
    }
    found
}

/// What a `GitStatus` holds, with its texts as sequences of characters.
pub struct StatusView {
    pub branch: Seq<char>,
    pub is_clean: bool,
    pub modified: Seq<Seq<char>>,
    pub added: Seq<Seq<char>>,
    pub deleted: Seq<Seq<char>>,
    pub ahead: i32,
}

impl View for GitStatus {
    type V = StatusView;

    open spec fn view(&self) -> StatusView {
        StatusView {
            branch: self.branch@,
            is_clean: self.is_clean,
            modified: texts(self.modified@),
            added: texts(self.added@),
            deleted: texts(self.deleted@),
            ahead: self.ahead,
        }
    }
}

/// The name of a branch for which the head gives no name, where the upstream is sought.
pub open spec fn unnamed_upstream_branch() -> Seq<char> {
    "main"@
}

/// The name reported for a branch for which the head gives no name.
pub open spec fn unnamed_branch() -> Seq<char> {
    "unknown"@
}

/// The reference under the remote `origin` that a branch is compared with.
pub open spec fn upstream_of(branch: Option<String>) -> Seq<char> {
    "refs/remotes/origin/"@ + text_or(branch, unnamed_upstream_branch())
}

/// The name of the reference that holds the upstream of the current branch: the branch of
/// the same name under the remote `origin`.
pub fn upstream_reference(branch: &Option<String>) -> (r: String)
    ensures
        r@ == upstream_of(*branch),
{
    let name = String::from_str("refs/remotes/origin/");
    match branch {
        Some(text) => name.concat(text.as_str()),
        None => name.concat("main"),
    }
}

/// The number of commits ahead that an inquiry gives, or the error that it ended with.
pub open spec fn ahead_count(ahead: Ahead) -> Result<i32, ErrorView> {
    match ahead {
        Ahead::HeadUnresolved(detail) => Err(ErrorView::RepositoryUnavailable(detail@)),
        Ahead::NoLocalTarget => Err(ErrorView::RepositoryUnavailable("No local target"@)),
        Ahead::NoUpstream => Ok(0i32),
        Ahead::Counted(Ok(count)) => Ok(count as i32),
        Ahead::Counted(Err(detail)) => Err(ErrorView::IoFailure(detail@)),
    }
}

/// The number of commits by which the current branch is ahead of its upstream: nought where
/// there is no upstream, an error where the head or the commit graph could not be read. A
/// count beyond the range of the result wraps around.
pub fn get_ahead_count(ahead: Ahead) -> (r: Result<i32, StoreError>)
    ensures
        view_result_number(r) == ahead_count(ahead),
{
    match ahead {
        Ahead::HeadUnresolved(detail) => Err(StoreError::RepositoryUnavailable { detail }),
        Ahead::NoLocalTarget => Err(
            StoreError::RepositoryUnavailable { detail: String::from_str("No local target") },
        ),
        Ahead::NoUpstream => Ok(0),
        Ahead::Counted(Ok(count)) => Ok(
            #[verifier::truncate]
            (count as i32),
        ),
        Ahead::Counted(Err(detail)) => Err(StoreError::IoFailure { detail }),
    }
}

/// A numeric result with its error taken by its view.
pub open spec fn view_result_number(r: Result<i32, StoreError>) -> Result<i32, ErrorView> {
    match r {
        Ok(n) => Ok(n),
        Err(error) => Err(error@),
    }
}

/// The number of commits ahead that is reported: nought wherever the inquiry failed.
pub open spec fn reported_ahead(ahead: Ahead) -> i32 {
    match ahead_count(ahead) {
        Ok(n) => n,
        Err(_) => 0i32,
    }
}

/// The status that is reported for what was read from the repository.
pub open spec fn status_report(
    settings: AppSettings,
    repository: Result<WorkingTree, String>,
) -> Result<StatusView, ErrorView> {
    if !settings.is_configured {
        Err(ErrorView::NotConfigured(None))
    } else {
        match repository {
            Err(detail) => Err(ErrorView::RepositoryUnavailable(detail@)),
            Ok(tree) => match (tree.head, tree.entries) {
                (Err(detail), _) => Err(ErrorView::RepositoryUnavailable(detail@)),
                (Ok(_), Err(detail)) => Err(ErrorView::IoFailure(detail@)),
                (Ok(name), Ok(entries)) => {
                    let modified = paths_with(entries@, Change::Modified);
                    let added = paths_with(entries@, Change::Added);
                    let deleted = paths_with(entries@, Change::Deleted);
                    Ok(
                        StatusView {
                            branch: text_or(name, unnamed_branch()),
                            is_clean: modified.len() == 0 && added.len() == 0 && deleted.len()
                                == 0,
                            modified,
                            added,
                            deleted,
                            ahead: reported_ahead(tree.ahead),
                        },
                    )
                },
            },
        }
    }
}

/// Reports the branch, the changed paths by kind of change, and the number of commits ahead.
///
/// `repository` is what was read from the repository at `settings.repository_path`, or why
/// it could not be opened. The report is clean exactly when no path shows any change. The
/// number of commits ahead is advisory: where it could not be had it is nought.
pub fn get_git_status(settings: &AppSettings, repository: Result<WorkingTree, String>) -> (r:
    Result<GitStatus, StoreError>)
    ensures
        view_result(r) == status_report(*settings, repository),
{
    if !settings.is_configured {
        return Err(StoreError::NotConfigured { missing: None });
    }
    let tree = match repository {
        Ok(tree) => tree,
        Err(detail) => {
            return Err(StoreError::RepositoryUnavailable { detail });
        },
    };
    let name = match tree.head {
        Ok(name) => name,
        Err(detail) => {
            return Err(StoreError::RepositoryUnavailable { detail });
        },
    };
    let entries = match tree.entries {
        Ok(entries) => entries,
        Err(detail) => {
            return Err(StoreError::IoFailure { detail });
        },
    };
    let branch = match name {
        Some(text) => text,
        None => String::from_str("unknown"),
    };
    let modified = changed_paths(&entries, Change::Modified);
    let added = changed_paths(&entries, Change::Added);
    let deleted = changed_paths(&entries, Change::Deleted);
    let is_clean = modified.len() == 0 && added.len() == 0 && deleted.len() == 0;
    let ahead = match get_ahead_count(tree.ahead) {
        Ok(n) => n,
        Err(_) => 0,
    };
    Ok(GitStatus { branch, is_clean, modified, added, deleted, ahead })
}

/// An entry that shows a change is listed under that change, and the report is not clean.
pub proof fn lemma_change_is_reported(entries: Seq<PathStatus>, change: Change, i: int)
    requires
        0 <= i < entries.len(),
        has_change(entries[i].flags, change),
    ensures
        paths_with(entries, change).contains(text_or(entries[i].path, Seq::empty())),
        paths_with(entries, change).len() > 0,
    decreases entries.len(),
{
    let path = text_or(entries[i].path, Seq::empty());
    if i == entries.len() - 1 {
        let listed = paths_with(entries, change);
        assert(listed.last() == path);
    } else {
        lemma_change_is_reported(entries.drop_last(), change, i);
        let before = paths_with(entries.drop_last(), change);
        let k = choose|k: int| 0 <= k < before.len() && before[k] == path;
        assert(paths_with(entries, change)[k] == path);
    }
}

/// Where no entry shows a change, nothing is listed under it.
pub proof fn lemma_unchanged_is_unlisted(entries: Seq<PathStatus>, change: Change)
    requires
        forall|i: int| 0 <= i < entries.len() ==> !has_change(#[trigger] entries[i].flags, change),
    ensures
        paths_with(entries, change).len() == 0,
    decreases entries.len(),
{
    if entries.len() > 0 {
        lemma_unchanged_is_unlisted(entries.drop_last(), change);
    }
}

/// A path that shows up as new is reported as added, and the report is not clean.
pub proof fn lemma_new_file_is_added(settings: AppSettings, tree: WorkingTree, i: int)
    requires
        settings.is_configured,
        tree.head is Ok,
        tree.entries matches Ok(entries) && 0 <= i < entries@.len() && is_added(entries@[i].flags),
    ensures
        status_report(settings, Ok(tree)) matches Ok(report) && !report.is_clean
            && report.added.contains(text_or(tree.entries->Ok_0@[i].path, Seq::empty())),
{
    lemma_change_is_reported(tree.entries->Ok_0@, Change::Added, i);
}

/// A tree in which no path shows a change is reported clean, with nothing listed.
pub proof fn lemma_unchanged_tree_is_clean(settings: AppSettings, tree: WorkingTree)
    requires
        settings.is_configured,
        tree.head is Ok,
        tree.entries matches Ok(entries) && forall|i: int, change: Change|
            0 <= i < entries@.len() ==> !#[trigger] has_change(entries@[i].flags, change),
    ensures
        status_report(settings, Ok(tree)) matches Ok(report) && report.is_clean
            && report.modified.len() == 0 && report.added.len() == 0 && report.deleted.len()
            == 0,
{
    let entries = tree.entries->Ok_0@;
    assert forall|i: int| 0 <= i < entries.len() implies !has_change(
        #[trigger] entries[i].flags,
        Change::Modified,
    ) && !has_change(entries[i].flags, Change::Added) && !has_change(
        entries[i].flags,
        Change::Deleted,
    ) by {}
    lemma_unchanged_is_unlisted(entries, Change::Modified);
    lemma_unchanged_is_unlisted(entries, Change::Added);
    lemma_unchanged_is_unlisted(entries, Change::Deleted);
}

/// The number of commits ahead never fails a report: whatever the inquiry after it gave, a
/// repository whose head and changed paths could be read gets its report, and the number is
/// nought where there is no upstream.
pub proof fn lemma_ahead_is_advisory(settings: AppSettings, tree: WorkingTree)
    requires
        settings.is_configured,
        tree.head is Ok,
        tree.entries is Ok,
    ensures
        status_report(settings, Ok(tree)) matches Ok(report) && (tree.ahead is NoUpstream
            ==> report.ahead == 0) && (ahead_count(tree.ahead) is Err ==> report.ahead == 0),
{
}

} // verus!
