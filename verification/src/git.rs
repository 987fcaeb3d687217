//! The repository model: what the git layer reports about a repository, and the
//! pure parts of how it turns raw repository data into that model.
use vstd::prelude::*;

use crate::filters::{lemma_filter_len_le, lemma_filter_push};

use crate::text::{
    concat_str, first_line, is_blank, spec_first_line, spec_is_blank, spec_split_once,
    spec_take_chars, split_once_char, take_chars,
};

verus! {

/// Summary of working directory status.
#[derive(Debug, Clone, Copy, PartialEq, Eq)]
pub struct StatusSummary {
    pub modified: usize,
    pub added: usize,
    pub deleted: usize,
    pub untracked: usize,
}

impl Default for StatusSummary {
    fn default() -> (r: Self)
        ensures
            r == (StatusSummary { modified: 0, added: 0, deleted: 0, untracked: 0 }),
    {
        StatusSummary { modified: 0, added: 0, deleted: 0, untracked: 0 }
    }
}

/// A commit with its metadata.
#[derive(Debug, Clone)]
pub struct Commit {
    /// Full object id in hex.
    pub hash: String,
    /// The first seven characters of `hash`.
    pub hash_short: String,
    pub author_name: String,
    pub author_email: String,
    /// Seconds since the Unix epoch.
    pub author_date: i64,
    pub committer_name: String,
    pub committer_email: String,
    pub committer_date: i64,
    /// Full commit message.
    pub message: String,
    /// First line of the message.
    pub message_summary: String,
    pub parent_hashes: Vec<String>,
}

/// Local branch metadata.
#[derive(Debug, Clone)]
pub struct LocalBranch {
    pub name: String,
    pub commit_hash: String,
    pub is_current: bool,
    pub upstream: Option<String>,
}

/// Remote branch metadata.
#[derive(Debug, Clone)]
pub struct RemoteBranch {
    pub remote: String,
    pub name: String,
    pub commit_hash: String,
}

/// Tag metadata.
#[derive(Debug, Clone)]
pub struct Tag {
    pub name: String,
    pub commit_hash: String,
    pub message: Option<String>,
}

/// Type of a line in a diff.
#[derive(Debug, Clone, Copy, PartialEq, Eq, Structural)]
pub enum DiffLineType {
    /// Context line (unchanged).
    Context,
    /// Line was added.
    Addition,
    /// Line was deleted.
    Deletion,
}

/// A line in a diff.
#[derive(Debug, Clone, PartialEq, Eq)]
pub struct DiffLine {
    pub line_type: DiffLineType,
    pub content: String,
    pub old_line_number: Option<usize>,
    pub new_line_number: Option<usize>,
}

/// A hunk in a diff (a section of changes).
#[derive(Debug, Clone, PartialEq, Eq)]
pub struct DiffHunk {
    pub old_start: usize,
    pub old_lines: usize,
    pub new_start: usize,
    pub new_lines: usize,
    pub lines: Vec<DiffLine>,
}

/// A hunk seen as plain values: its header and the sequence of its lines.
pub struct DiffHunkView {
    pub old_start: usize,
    pub old_lines: usize,
    pub new_start: usize,
    pub new_lines: usize,
    pub lines: Seq<DiffLine>,
}

impl View for DiffHunk {
    type V = DiffHunkView;

    open spec fn view(&self) -> DiffHunkView {
        DiffHunkView {
            old_start: self.old_start,
            old_lines: self.old_lines,
            new_start: self.new_start,
            new_lines: self.new_lines,
            lines: self.lines@,
        }
    }
}

/// A list of hunks seen as plain values.
pub open spec fn hunks_view(hunks: Seq<DiffHunk>) -> Seq<DiffHunkView> {
    hunks.map_values(|h: DiffHunk| h@)
}

/// A file diff with hunks showing line-by-line changes.
#[derive(Debug, Clone, PartialEq, Eq)]
pub struct FileDiff {
    pub path: String,
    pub status: FileStatus,
    pub additions: usize,
    pub deletions: usize,
    pub hunks: Vec<DiffHunk>,
}

/// Status of a file in a diff.
#[derive(Debug, Clone, Copy, PartialEq, Eq, Structural)]
pub enum FileStatus {
    Added,
    Modified,
    Deleted,
    Renamed,
    Copied,
}

/// Status of a file in the working directory.
#[derive(Debug, Clone, Copy, PartialEq, Eq, Structural)]
pub enum WorkingDirStatus {
    /// File is modified but not staged.
    Modified,
    /// File is new and not tracked.
    Untracked,
    /// File is deleted in working directory.
    Deleted,
    /// File is renamed.
    Renamed,
    /// File has merge conflicts.
    Conflicted,
    /// File type changed (e.g., file -> symlink).
    TypeChanged,
}

/// A file in the working directory.
#[derive(Debug, Clone)]
pub struct WorkingDirFile {
    /// Path to the file relative to repository root.
    pub path: String,
    /// Status of the file.
    pub status: WorkingDirStatus,
    /// Whether the file is staged (in index).
    pub is_staged: bool,
}

/// Errors that can occur during Git operations.
#[derive(Debug, Clone)]
pub enum GitError {
    RepoNotFound(String),
    InvalidRepo(String),
    OperationFailed(String),
    RefNotFound(String),
}

/// The text a `GitError` displays as.
pub open spec fn git_error_text(e: GitError) -> Seq<char> {
    match e {
        GitError::RepoNotFound(s) => "Repository not found at path: "@ + s@,
        GitError::InvalidRepo(s) => "Invalid repository: "@ + s@,
        GitError::OperationFailed(s) => "Git operation failed: "@ + s@,
        GitError::RefNotFound(s) => "Reference not found: "@ + s@,
    }
}

impl GitError {
    /// The human-readable description of the error.
    pub fn message(&self) -> (r: String)
        ensures
            r@ == git_error_text(*self),
    {
        match self {
            GitError::RepoNotFound(s) => concat_str("Repository not found at path: ", s.as_str()),
            GitError::InvalidRepo(s) => concat_str("Invalid repository: ", s.as_str()),
            GitError::OperationFailed(s) => concat_str("Git operation failed: ", s.as_str()),
            GitError::RefNotFound(s) => concat_str("Reference not found: ", s.as_str()),
        }
    }
}

// ---------------------------------------------------------------------------
// Status summary
// ---------------------------------------------------------------------------

/// Whether a working-directory file counts as modified in the summary.
pub open spec fn counts_as_modified(s: WorkingDirStatus) -> bool {
    match s {
        WorkingDirStatus::Modified | WorkingDirStatus::Renamed | WorkingDirStatus::TypeChanged
        | WorkingDirStatus::Conflicted => true,
        _ => false,
    }
}

/// Number of files whose status satisfies `p`.
pub open spec fn count_files(files: Seq<WorkingDirFile>, p: spec_fn(WorkingDirFile) -> bool) -> nat {
    files.filter(p).len()
}

/// The summary the status counts of `files` make up.
pub open spec fn spec_status_summary(files: Seq<WorkingDirFile>) -> StatusSummary {
    StatusSummary {
        modified: count_files(files, |f: WorkingDirFile| counts_as_modified(f.status)) as usize,
        added: count_files(files, |f: WorkingDirFile| f.is_staged) as usize,
        deleted: count_files(files, |f: WorkingDirFile| f.status == WorkingDirStatus::Deleted) as usize,
        untracked: count_files(files, |f: WorkingDirFile| f.status == WorkingDirStatus::Untracked)
            as usize,
    }
}

/// Count the working-directory files by kind (`GitRepository::get_status`).
pub fn status_summary(files: &Vec<WorkingDirFile>) -> (r: StatusSummary)
    ensures
        r == spec_status_summary(files@),
{
    let mut summary = StatusSummary { modified: 0, added: 0, deleted: 0, untracked: 0 };
    let ghost pm = |f: WorkingDirFile| counts_as_modified(f.status);
    let ghost pa = |f: WorkingDirFile| f.is_staged;
    let ghost pd = |f: WorkingDirFile| f.status == WorkingDirStatus::Deleted;
    let ghost pu = |f: WorkingDirFile| f.status == WorkingDirStatus::Untracked;
    let mut i: usize = 0;
    while i < files.len()
        invariant
            i <= files@.len(),
            summary.modified == files@.take(i as int).filter(pm).len(),
            summary.added == files@.take(i as int).filter(pa).len(),
            summary.deleted == files@.take(i as int).filter(pd).len(),
            summary.untracked == files@.take(i as int).filter(pu).len(),
            pm == (|f: WorkingDirFile| counts_as_modified(f.status)),
            pa == (|f: WorkingDirFile| f.is_staged),
            pd == (|f: WorkingDirFile| f.status == WorkingDirStatus::Deleted),
            pu == (|f: WorkingDirFile| f.status == WorkingDirStatus::Untracked),
        decreases files@.len() - i,
    {
        let f = &files[i];
        proof {
            let t = files@.take(i as int);
            assert(files@.take(i + 1) =~= t.push(files@[i as int]));
            lemma_filter_push(t, pm, files@[i as int]);
            lemma_filter_push(t, pa, files@[i as int]);
            lemma_filter_push(t, pd, files@[i as int]);
            lemma_filter_push(t, pu, files@[i as int]);
            lemma_filter_len_le(t, pm);
            lemma_filter_len_le(t, pa);
            lemma_filter_len_le(t, pd);
            lemma_filter_len_le(t, pu);
        }
        match f.status {
            WorkingDirStatus::Modified => summary.modified = summary.modified + 1,
            WorkingDirStatus::Untracked => summary.untracked = summary.untracked + 1,
            WorkingDirStatus::Deleted => summary.deleted = summary.deleted + 1,
            WorkingDirStatus::Renamed | WorkingDirStatus::TypeChanged => summary.modified =
            summary.modified + 1,
            WorkingDirStatus::Conflicted => summary.modified = summary.modified + 1,
        }
        if f.is_staged {
            summary.added = summary.added + 1;
        }
        i = i + 1;
    }
    assert(files@.take(files@.len() as int) =~= files@);
    summary
}

// ---------------------------------------------------------------------------
// Working-directory status entries
// ---------------------------------------------------------------------------

/// The status bits the repository reports for one path, each as a plain flag.
#[derive(Debug, Clone, Copy, Default, PartialEq, Eq)]
pub struct StatusFlags {
    pub index_new: bool,
    pub index_modified: bool,
    pub index_deleted: bool,
    pub index_renamed: bool,
    pub index_typechange: bool,
    pub wt_new: bool,
    pub wt_modified: bool,
    pub wt_deleted: bool,
    pub wt_renamed: bool,
    pub wt_typechange: bool,
    pub conflicted: bool,
}

/// Whether the path has a change recorded in the index.
pub open spec fn spec_is_staged(f: StatusFlags) -> bool {
    f.index_new || f.index_modified || f.index_deleted || f.index_renamed || f.index_typechange
}

/// The working-directory status a set of flags stands for, by precedence:
/// conflict, new in the worktree, modified, deleted, renamed, type change, new in the index.
pub open spec fn spec_classify(f: StatusFlags) -> Option<WorkingDirStatus> {
    if f.conflicted {
        Some(WorkingDirStatus::Conflicted)
    } else if f.wt_new {
        Some(WorkingDirStatus::Untracked)
    } else if f.wt_modified || f.index_modified {
        Some(WorkingDirStatus::Modified)
    } else if f.wt_deleted || f.index_deleted {
        Some(WorkingDirStatus::Deleted)
    } else if f.wt_renamed || f.index_renamed {
        Some(WorkingDirStatus::Renamed)
    } else if f.wt_typechange || f.index_typechange {
        Some(WorkingDirStatus::TypeChanged)
    } else if f.index_new {
        Some(WorkingDirStatus::Modified)
    } else {
        None
    }
}

/// Every path whose flags record a change (in the index, in the worktree, or a conflict)
/// gets a working-directory entry, and only those; a deletion, in the index or in the
/// worktree, with no conflict, no new file in the worktree and no modification beside it,
/// is shown as deleted; an entry counts as staged exactly when an index flag is set.
pub proof fn lemma_status_entries(path: String, f: StatusFlags, r: Option<WorkingDirFile>)
    requires
        match spec_classify(f) {
            Some(st) => r == Some(WorkingDirFile { path, status: st, is_staged: spec_is_staged(f) }),
            None => r is None,
        },
    ensures
        (f.index_new || f.index_modified || f.index_deleted || f.index_renamed
            || f.index_typechange || f.wt_new || f.wt_modified || f.wt_deleted || f.wt_renamed
            || f.wt_typechange || f.conflicted) <==> r is Some,
        (f.index_deleted || f.wt_deleted) && !f.conflicted && !f.wt_new && !f.wt_modified
            && !f.index_modified ==> (r matches Some(e) && e.status == WorkingDirStatus::Deleted),
        r matches Some(e) ==> e.path == path && (e.is_staged <==> (f.index_new || f.index_modified
            || f.index_deleted || f.index_renamed || f.index_typechange)),
{
}

/// The working-directory entry for one path, or `None` when its flags show no change
/// (the loop body of `GitRepository::get_working_dir_status`).
pub fn working_dir_entry(path: String, flags: StatusFlags) -> (r: Option<WorkingDirFile>)
    ensures
        match spec_classify(flags) {
            Some(st) => r == Some(
                WorkingDirFile { path, status: st, is_staged: spec_is_staged(flags) },
            ),
            None => r is None,
        },
{
    let is_staged = flags.index_new || flags.index_modified || flags.index_deleted
        || flags.index_renamed || flags.index_typechange;
    let status = if flags.conflicted {
        Some(WorkingDirStatus::Conflicted)
    } else if flags.wt_new {
        Some(WorkingDirStatus::Untracked)
    } else if flags.wt_modified || flags.index_modified {
        Some(WorkingDirStatus::Modified)
    } else if flags.wt_deleted || flags.index_deleted {
        Some(WorkingDirStatus::Deleted)
    } else if flags.wt_renamed || flags.index_renamed {
        Some(WorkingDirStatus::Renamed)
    } else if flags.wt_typechange || flags.index_typechange {
        Some(WorkingDirStatus::TypeChanged)
    } else if flags.index_new {
        Some(WorkingDirStatus::Modified)
    } else {
        None
    };
    match status {
        Some(st) => Some(WorkingDirFile { path, status: st, is_staged }),
        None => None,
    }
}

/// Paths of the files for which `staged` matches their staged flag, in order.
pub open spec fn spec_paths_with_staged(files: Seq<WorkingDirFile>, staged: bool) -> Seq<String> {
    files.filter(|f: WorkingDirFile| f.is_staged == staged).map_values(|f: WorkingDirFile| f.path)
}

/// The paths `stage_all` (`staged == false`) or `unstage_all` (`staged == true`) acts on.
pub fn paths_with_staged(files: &Vec<WorkingDirFile>, staged: bool) -> (r: Vec<String>)
    ensures
        r@ == spec_paths_with_staged(files@, staged),
{
    let ghost p = |f: WorkingDirFile| f.is_staged == staged;
    let mut r: Vec<String> = Vec::new();
    let mut i: usize = 0;
    while i < files.len()
        invariant
            i <= files@.len(),
            r@ == files@.take(i as int).filter(p).map_values(|f: WorkingDirFile| f.path),
            p == (|f: WorkingDirFile| f.is_staged == staged),
        decreases files@.len() - i,
    {
        proof {
            let t = files@.take(i as int);
            assert(files@.take(i + 1) =~= t.push(files@[i as int]));
            lemma_filter_push(t, p, files@[i as int]);
        }
        if files[i].is_staged == staged {
            let ghost before = r@;
            r.push(files[i].path.clone());
            assert(r@ =~= files@.take(i as int).filter(p).push(files@[i as int]).map_values(
                |f: WorkingDirFile| f.path,
            ));
        }
        i = i + 1;
    }
    assert(files@.take(files@.len() as int) =~= files@);
    r
}

// ---------------------------------------------------------------------------
// Commits
// ---------------------------------------------------------------------------

/// Build a commit record from the raw fields of a commit object (`parse_commit`):
/// the short hash is the first seven characters of the hash and the summary is the
/// first line of the message.
pub fn build_commit(
    hash: String,
    message: String,
    author_name: String,
    author_email: String,
    author_date: i64,
    committer_name: String,
    committer_email: String,
    committer_date: i64,
    parent_hashes: Vec<String>,
) -> (c: Commit)
    ensures
        c.hash == hash,
        c.hash_short@ == spec_take_chars(hash@, 7),
        c.message == message,
        c.message_summary@ == spec_first_line(message@),
        c.author_name == author_name,
        c.author_email == author_email,
        c.author_date == author_date,
        c.committer_name == committer_name,
        c.committer_email == committer_email,
        c.committer_date == committer_date,
        c.parent_hashes == parent_hashes,
{
    let hash_short = take_chars(hash.as_str(), 7);
    let message_summary = first_line(message.as_str());
    Commit {
        hash,
        hash_short,
        author_name,
        author_email,
        author_date,
        committer_name,
        committer_email,
        committer_date,
        message,
        message_summary,
        parent_hashes,
    }
}

/// The text the commit message check rejects with.
pub open spec fn empty_message_text() -> Seq<char> {
    "Commit message cannot be empty"@
}

/// Check a commit message before committing: a blank message is refused.
pub fn validate_commit_message(message: &str) -> (r: Result<(), GitError>)
    ensures
        spec_is_blank(message@) <==> r is Err,
        r matches Err(GitError::OperationFailed(m)) ==> m@ == empty_message_text(),
        r matches Err(e) ==> e is OperationFailed,
{
    if is_blank(message) {
        Err(GitError::OperationFailed("Commit message cannot be empty".to_owned()))
    } else {
        Ok(())
    }
}

/// The error a repository that cannot be opened gives: not found when its path does not
/// exist, else an invalid repository with the reason the opener gave.
pub open spec fn spec_open_failure(path: Seq<char>, path_exists: bool, reason: Seq<char>) -> Seq<char> {
    if path_exists {
        "Failed to open repository: "@ + reason
    } else {
        path
    }
}

/// The error for a repository that could not be opened at `path` (a display text of the
/// path): `RepoNotFound` with the path when nothing exists there, else `InvalidRepo` with
/// the opener's reason.
pub fn open_failure(path: &str, path_exists: bool, reason: &str) -> (r: GitError)
    ensures
        !path_exists ==> r is RepoNotFound,
        path_exists ==> r is InvalidRepo,
        match r {
            GitError::RepoNotFound(s) | GitError::InvalidRepo(s) => s@ == spec_open_failure(
                path@,
                path_exists,
                reason@,
            ),
            _ => false,
        },
{
    if path_exists {
        proof {
            reveal_strlit("Failed to open repository: ");
        }
        GitError::InvalidRepo(crate::text::concat_str("Failed to open repository: ", reason))
    } else {
        GitError::RepoNotFound(path.to_owned())
    }
}

/// The text a commit is refused with when nothing is staged.
pub open spec fn nothing_staged_text() -> Seq<char> {
    "No staged changes to commit"@
}

/// Check, before committing, that something is staged: a commit with no staged change
/// is refused.
pub fn check_staged_changes(has_staged: bool) -> (r: Result<(), GitError>)
    ensures
        r is Ok <==> has_staged,
        r matches Err(GitError::OperationFailed(m)) ==> m@ == nothing_staged_text(),
        r matches Err(e) ==> e is OperationFailed,
{
    if has_staged {
        Ok(())
    } else {
        Err(GitError::OperationFailed("No staged changes to commit".to_owned()))
    }
}

/// How `HEAD` is labelled: `detached at <first seven characters of the id>` when it
/// points at a commit directly, `detached HEAD` when that commit is unknown, else the
/// short name of the branch it refers to, or `HEAD` when there is none.
pub open spec fn spec_head_label(
    detached: bool,
    id: Option<Seq<char>>,
    branch: Option<Seq<char>>,
) -> Seq<char> {
    if detached {
        match id {
            Some(i) => "detached at "@ + i.take(7),
            None => "detached HEAD"@,
        }
    } else {
        match branch {
            Some(b) => b,
            None => "HEAD"@,
        }
    }
}

/// Label for the current `HEAD` (`GitRepository::get_head`). The id, when given, is an
/// object id in hex, so at least seven ASCII characters long.
pub fn head_label(detached: bool, id: Option<String>, branch: Option<String>) -> (r: String)
    requires
        id matches Some(i) ==> i@.len() >= 7,
    ensures
        r@ == spec_head_label(
            detached,
            match id {
                Some(i) => Some(i@),
                None => None,
            },
            match branch {
                Some(b) => Some(b@),
                None => None,
            },
        ),
{
    if detached {
        match id {
            Some(i) => {
                let prefix = take_chars(i.as_str(), 7);
                concat_str("detached at ", prefix.as_str())
            },
            None => "detached HEAD".to_owned(),
        }
    } else {
        match branch {
            Some(b) => b,
            None => "HEAD".to_owned(),
        }
    }
}

/// Split a shortened remote reference `remote/branch` at its first `/`
/// (`GitRepository::list_remote_branches`); `None` when it holds no `/`.
pub fn split_remote_ref(full_name: &str) -> (r: Option<(String, String)>)
    ensures
        match (r, spec_split_once(full_name@, '/')) {
            (Some((a, b)), Some((x, y))) => a@ == x && b@ == y,
            (None, None) => true,
            _ => false,
        },
{
    split_once_char(full_name, '/')
}

/// Whether a file prefix read from disk looks binary: it holds a zero byte
/// (`GitRepository::is_binary_file`).
pub fn looks_binary(bytes: &[u8]) -> (r: bool)
    ensures
        r == bytes@.contains(0u8),
{
    let mut i: usize = 0;
    while i < bytes.len()
        invariant
            i <= bytes@.len(),
            forall|j: int| 0 <= j < i ==> bytes@[j] != 0u8,
        decreases bytes@.len() - i,
    {
        if bytes[i] == 0u8 {
            assert(bytes@[i as int] == 0u8);
            return true;
        }
        i = i + 1;
    }
    false
}

// ---------------------------------------------------------------------------
// Diff lines
// ---------------------------------------------------------------------------

/// The diff line a patch line of the given origin becomes: `+` an addition (with its
/// new line number), `-` a deletion (with its old line number), a space a context line
/// (with both); other origins (headers, end-of-file markers) are skipped.
pub open spec fn spec_diff_line(
    origin: char,
    content: String,
    old_lineno: Option<u32>,
    new_lineno: Option<u32>,
) -> Option<DiffLine> {
    let old = match old_lineno {
        Some(n) => Some(n as usize),
        None => None,
    };
    let new = match new_lineno {
        Some(n) => Some(n as usize),
        None => None,
    };
    if origin == '+' {
        Some(
            DiffLine {
                line_type: DiffLineType::Addition,
                content,
                old_line_number: None,
                new_line_number: new,
            },
        )
    } else if origin == '-' {
        Some(
            DiffLine {
                line_type: DiffLineType::Deletion,
                content,
                old_line_number: old,
                new_line_number: None,
            },
        )
    } else if origin == ' ' {
        Some(
            DiffLine {
                line_type: DiffLineType::Context,
                content,
                old_line_number: old,
                new_line_number: new,
            },
        )
    } else {
        None
    }
}

fn widen(n: Option<u32>) -> (r: Option<usize>)
    ensures
        r == match n {
            Some(k) => Some(k as usize),
            None => None::<usize>,
        },
{
    match n {
        Some(k) => Some(k as usize),
        None => None,
    }
}

/// Turn one patch line into a diff line (the line loop of `get_commit_diff` and
/// `get_file_diff`).
pub fn diff_line_from_origin(
    origin: char,
    content: String,
    old_lineno: Option<u32>,
    new_lineno: Option<u32>,
) -> (r: Option<DiffLine>)
    ensures
        r == spec_diff_line(origin, content, old_lineno, new_lineno),
{
    if origin == '+' {
        Some(
            DiffLine {
                line_type: DiffLineType::Addition,
                content,
                old_line_number: None,
                new_line_number: widen(new_lineno),
            },
        )
    } else if origin == '-' {
        Some(
            DiffLine {
                line_type: DiffLineType::Deletion,
                content,
                old_line_number: widen(old_lineno),
                new_line_number: None,
            },
        )
    } else if origin == ' ' {
        Some(
            DiffLine {
                line_type: DiffLineType::Context,
                content,
                old_line_number: widen(old_lineno),
                new_line_number: widen(new_lineno),
            },
        )
    } else {
        None
    }
}

/// Number of lines of the given type over all hunks.
pub open spec fn count_lines(hunks: Seq<DiffHunk>, t: DiffLineType) -> nat
    decreases hunks.len(),
{
    if hunks.len() == 0 {
        0
    } else {
        count_lines(hunks.drop_last(), t) + hunks.last().lines@.filter(
            |l: DiffLine| l.line_type == t,
        ).len()
    }
}

/// Number of lines of the given type in one line list.
fn count_in_lines(lines: &Vec<DiffLine>, t: DiffLineType) -> (r: usize)
    ensures
        r == lines@.filter(|l: DiffLine| l.line_type == t).len(),
{
    let ghost p = |l: DiffLine| l.line_type == t;
    let mut n: usize = 0;
    let mut i: usize = 0;
    while i < lines.len()
        invariant
            i <= lines@.len(),
            n == lines@.take(i as int).filter(p).len(),
            p == (|l: DiffLine| l.line_type == t),
        decreases lines@.len() - i,
    {
        proof {
            let s = lines@.take(i as int);
            assert(lines@.take(i + 1) =~= s.push(lines@[i as int]));
            lemma_filter_push(s, p, lines@[i as int]);
            lemma_filter_len_le(s, p);
        }
        if lines[i].line_type == t {
            n = n + 1;
        }
        i = i + 1;
    }
    assert(lines@.take(lines@.len() as int) =~= lines@);
    n
}

/// Assemble the diff of one file, counting its added and deleted lines from its hunks.
/// Each count must fit in a `usize`, which it does for any diff held in memory.
pub fn file_diff_from_hunks(path: String, status: FileStatus, hunks: Vec<DiffHunk>) -> (r: FileDiff)
    requires
        count_lines(hunks@, DiffLineType::Addition) <= usize::MAX,
        count_lines(hunks@, DiffLineType::Deletion) <= usize::MAX,
    ensures
        r.path == path,
        r.status == status,
        r.hunks == hunks,
        r.additions == count_lines(hunks@, DiffLineType::Addition),
        r.deletions == count_lines(hunks@, DiffLineType::Deletion),
{
    let mut additions: usize = 0;
    let mut deletions: usize = 0;
    let mut i: usize = 0;
    while i < hunks.len()
        invariant
            i <= hunks@.len(),
            additions == count_lines(hunks@.take(i as int), DiffLineType::Addition),
            deletions == count_lines(hunks@.take(i as int), DiffLineType::Deletion),
            count_lines(hunks@, DiffLineType::Addition) <= usize::MAX,
            count_lines(hunks@, DiffLineType::Deletion) <= usize::MAX,
        decreases hunks@.len() - i,
    {
        proof {
            assert(hunks@.take(i + 1).drop_last() =~= hunks@.take(i as int));
            lemma_count_lines_prefix_le(hunks@, i + 1, DiffLineType::Addition);
            lemma_count_lines_prefix_le(hunks@, i + 1, DiffLineType::Deletion);
        }
        let a = count_in_lines(&hunks[i].lines, DiffLineType::Addition);
        let d = count_in_lines(&hunks[i].lines, DiffLineType::Deletion);
        additions = additions + a;
        deletions = deletions + d;
        i = i + 1;
    }
    assert(hunks@.take(hunks@.len() as int) =~= hunks@);
    FileDiff { path, status, additions, deletions, hunks }
}

proof fn lemma_count_lines_prefix_le(h: Seq<DiffHunk>, k: int, t: DiffLineType)
    requires
        0 <= k <= h.len(),
    ensures
        count_lines(h.take(k), t) <= count_lines(h, t),
    decreases h.len(),
{
    if k == h.len() {
        assert(h.take(k) =~= h);
    } else {
        assert(h.drop_last().take(k) =~= h.take(k));
        lemma_count_lines_prefix_le(h.drop_last(), k, t);
    }
}

/// Copy a list of hunks line by line; the copy has the same plain-value view.
pub fn copy_hunks(hunks: &Vec<DiffHunk>) -> (r: Vec<DiffHunk>)
    ensures
        hunks_view(r@) == hunks_view(hunks@),
{
    let mut r: Vec<DiffHunk> = Vec::new();
    let mut i: usize = 0;
    while i < hunks.len()
        invariant
            i <= hunks@.len(),
            r@.len() == i,
            forall|k: int| 0 <= k < i ==> #[trigger] r@[k]@ == hunks@[k]@,
        decreases hunks@.len() - i,
    {
        let h = &hunks[i];
        let mut lines: Vec<DiffLine> = Vec::new();
        let mut j: usize = 0;
        while j < h.lines.len()
            invariant
                j <= h.lines@.len(),
                lines@ =~= h.lines@.take(j as int),
            decreases h.lines@.len() - j,
        {
            let l = &h.lines[j];
            lines.push(
                DiffLine {
                    line_type: l.line_type,
                    content: l.content.clone(),
                    old_line_number: l.old_line_number,
                    new_line_number: l.new_line_number,
                },
            );
            j = j + 1;
        }
        assert(h.lines@.take(h.lines@.len() as int) =~= h.lines@);
        r.push(
            DiffHunk {
                old_start: h.old_start,
                old_lines: h.old_lines,
                new_start: h.new_start,
                new_lines: h.new_lines,
                lines,
            },
        );
        i = i + 1;
    }
    assert(hunks_view(r@) =~= hunks_view(hunks@));
    r
}

// ---------------------------------------------------------------------------
// Batches and identity
// ---------------------------------------------------------------------------

/// How many paths one index update takes when many files are staged or unstaged.
pub const BATCH_CHUNK_SIZE: usize = 500;

/// The chunks of a batch of `len` paths: consecutive ranges from the start, each of
/// `BATCH_CHUNK_SIZE` paths but the last, which ends at `len`; none for an empty batch.
pub fn batch_chunks(len: usize) -> (r: Vec<(usize, usize)>)
    ensures
        (r@.len() == 0) == (len == 0),
        forall|i: int|
            0 <= i < r@.len() ==> #[trigger] r@[i].0 == i * (BATCH_CHUNK_SIZE as int) && r@[i].1 == (
            if r@[i].0 + BATCH_CHUNK_SIZE < len {
                r@[i].0 + BATCH_CHUNK_SIZE
            } else {
                len as int
            }),
        r@.len() > 0 ==> r@.last().1 == len,
        forall|i: int| 0 <= i < r@.len() ==> #[trigger] r@[i].0 < r@[i].1,
{
    let mut r: Vec<(usize, usize)> = Vec::new();
    let mut start: usize = 0;
    while start < len
        invariant
            start <= len,
            start == r@.len() * BATCH_CHUNK_SIZE || (start == len && r@.len() > 0),
            r@.len() > 0 ==> r@.last().1 == start && start > 0,
            start < len ==> start == r@.len() * BATCH_CHUNK_SIZE,
            forall|i: int|
                0 <= i < r@.len() ==> #[trigger] r@[i].0 == i * (BATCH_CHUNK_SIZE as int) && r@[i].1
                    == (if r@[i].0 + BATCH_CHUNK_SIZE < len {
                    r@[i].0 + BATCH_CHUNK_SIZE
                } else {
                    len as int
                }),
            forall|i: int| 0 <= i < r@.len() ==> #[trigger] r@[i].0 < r@[i].1,
        decreases len - start,
    {
        let end = if len - start > BATCH_CHUNK_SIZE {
            start + BATCH_CHUNK_SIZE
        } else {
            len
        };
        r.push((start, end));
        start = end;
    }
    r
}

/// The e-mail address used when none is configured: the user name, `@`, and the host
/// name, or `localhost` when the host name is unknown.
pub fn fallback_email(user: &str, host: Option<String>) -> (r: String)
    ensures
        r@ == user@ + "@"@ + match host {
            Some(h) => h@,
            None => "localhost"@,
        },
{
    let at = concat_str(user, "@");
    match host {
        Some(h) => concat_str(at.as_str(), h.as_str()),
        None => concat_str(at.as_str(), "localhost"),
    }
}

} // verus!
