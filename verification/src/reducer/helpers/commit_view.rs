//! Building the changed-files view of a commit.
use vstd::prelude::*;

use crate::filters::lemma_filter_push;

use crate::git::{Commit, FileDiff, FileStatus, WorkingDirFile, WorkingDirStatus};
use crate::state::{BranchInfo, BranchTreeState, ChangedFilesState, CommitInfo, TagInfo};
use crate::text::{spec_take_chars, str_eq, take_chars};

verus! {

/// The first commit in the list with the given hash.
pub open spec fn spec_find_commit(commits: Seq<Commit>, hash: Seq<char>) -> Option<Commit>
    decreases commits.len(),
{
    if commits.len() == 0 {
        None
    } else if commits[0].hash@ == hash {
        Some(commits[0])
    } else {
        spec_find_commit(commits.drop_first(), hash)
    }
}

/// Position of the first commit with the given hash.
pub fn find_commit_index(commits: &Vec<Commit>, hash: &str) -> (r: Option<usize>)
    ensures
        match r {
            Some(i) => i < commits@.len() && spec_find_commit(commits@, hash@) == Some(
                commits@[i as int],
            ),
            None => spec_find_commit(commits@, hash@) is None,
        },
{
    let mut i: usize = 0;
    assert(commits@.skip(0) =~= commits@);
    while i < commits.len()
        invariant
            i <= commits@.len(),
            spec_find_commit(commits@, hash@) == spec_find_commit(commits@.skip(i as int), hash@),
        decreases commits@.len() - i,
    {
        assert(commits@.skip(i as int).drop_first() =~= commits@.skip(i + 1));
        if str_eq(commits[i].hash.as_str(), hash) {
            return Some(i);
        }
        i = i + 1;
    }
    None
}

/// The message of the commit with the given hash; empty when there is none.
pub open spec fn spec_commit_message(commits: Seq<Commit>, hash: Seq<char>) -> Seq<char> {
    match spec_find_commit(commits, hash) {
        Some(c) => c.message@,
        None => Seq::empty(),
    }
}

/// The message of the commit with the given hash, or the empty string.
pub fn commit_message(commits: &Vec<Commit>, commit_hash: &str) -> (r: String)
    ensures
        r@ == spec_commit_message(commits@, commit_hash@),
{
    match find_commit_index(commits, commit_hash) {
        Some(i) => commits[i].message.clone(),
        None => String::new(),
    }
}

/// Names of the local branches whose tip is the commit `hash`.
pub open spec fn spec_branches_at(branches: Seq<BranchInfo>, hash: Seq<char>) -> Seq<String> {
    branches.filter(|b: BranchInfo| b.commit_hash@ == hash).map_values(|b: BranchInfo| b.name)
}

/// Names of the tags on the commit `hash`.
pub open spec fn spec_tags_at(tags: Seq<TagInfo>, hash: Seq<char>) -> Seq<String> {
    tags.filter(|t: TagInfo| t.commit_hash@ == hash).map_values(|t: TagInfo| t.name)
}

/// The details stored for the commit `hash`: those of the first commit of the list
/// with that hash, or none when the list has no such commit.
pub open spec fn is_commit_info_of(
    info: Option<CommitInfo>,
    commits: Seq<Commit>,
    branch_tree: Option<BranchTreeState>,
    hash: Seq<char>,
) -> bool {
    match spec_find_commit(commits, hash) {
        Some(c) => info matches Some(i) && is_commit_info(i, c, branch_tree),
        None => info is None,
    }
}

/// The details shown for a commit: its identity and author, its parents shortened to
/// ten characters, and the local branches and tags pointing at it.
pub open spec fn is_commit_info(
    info: CommitInfo,
    c: Commit,
    branch_tree: Option<BranchTreeState>,
) -> bool {
    &&& info.hash == c.hash
    &&& info.author_name == c.author_name
    &&& info.author_email == c.author_email
    &&& info.author_date == c.author_date
    &&& info.parent_hashes@.len() == c.parent_hashes@.len()
    &&& forall|i: int|
        0 <= i < c.parent_hashes@.len() ==> #[trigger] info.parent_hashes@[i]@ == spec_take_chars(
            c.parent_hashes@[i]@,
            10,
        )
    &&& info.branches@ == match branch_tree {
        Some(t) => spec_branches_at(t.local_branches@, c.hash@),
        None => Seq::empty(),
    }
    &&& info.tags@ == match branch_tree {
        Some(t) => spec_tags_at(t.tags@, c.hash@),
        None => Seq::empty(),
    }
}

fn branch_names_at(branches: &Vec<BranchInfo>, hash: &String) -> (r: Vec<String>)
    ensures
        r@ == spec_branches_at(branches@, hash@),
{
    let ghost p = |b: BranchInfo| b.commit_hash@ == hash@;
    let mut r: Vec<String> = Vec::new();
    let mut i: usize = 0;
    while i < branches.len()
        invariant
            i <= branches@.len(),
            r@ == branches@.take(i as int).filter(p).map_values(|b: BranchInfo| b.name),
            p == (|b: BranchInfo| b.commit_hash@ == hash@),
        decreases branches@.len() - i,
    {
        proof {
            assert(branches@.take(i + 1) =~= branches@.take(i as int).push(branches@[i as int]));
            lemma_filter_push(branches@.take(i as int), p, branches@[i as int]);
        }
        if branches[i].commit_hash == *hash {
            r.push(branches[i].name.clone());
            assert(r@ =~= branches@.take(i as int).filter(p).push(branches@[i as int]).map_values(
                |b: BranchInfo| b.name,
            ));
        }
        i = i + 1;
    }
    assert(branches@.take(branches@.len() as int) =~= branches@);
    r
}

fn tag_names_at(tags: &Vec<TagInfo>, hash: &String) -> (r: Vec<String>)
    ensures
        r@ == spec_tags_at(tags@, hash@),
{
    let ghost p = |t: TagInfo| t.commit_hash@ == hash@;
    let mut r: Vec<String> = Vec::new();
    let mut i: usize = 0;
    while i < tags.len()
        invariant
            i <= tags@.len(),
            r@ == tags@.take(i as int).filter(p).map_values(|t: TagInfo| t.name),
            p == (|t: TagInfo| t.commit_hash@ == hash@),
        decreases tags@.len() - i,
    {
        proof {
            assert(tags@.take(i + 1) =~= tags@.take(i as int).push(tags@[i as int]));
            lemma_filter_push(tags@.take(i as int), p, tags@[i as int]);
        }
        if tags[i].commit_hash == *hash {
            r.push(tags[i].name.clone());
            assert(r@ =~= tags@.take(i as int).filter(p).push(tags@[i as int]).map_values(
                |t: TagInfo| t.name,
            ));
        }
        i = i + 1;
    }
    assert(tags@.take(tags@.len() as int) =~= tags@);
    r
}

/// The details of the commit with the given hash, or `None` when the list has no such
/// commit.
pub fn build_commit_info(
    commits: &Vec<Commit>,
    branch_tree: Option<&BranchTreeState>,
    commit_hash: &str,
) -> (r: Option<CommitInfo>)
    ensures
        is_commit_info_of(
            r,
            commits@,
            match branch_tree {
                Some(t) => Some(*t),
                None => None,
            },
            commit_hash@,
        ),
{
    match find_commit_index(commits, commit_hash) {
        None => None,
        Some(k) => {
            let c = &commits[k];
            let branches = match branch_tree {
                Some(bt) => branch_names_at(&bt.local_branches, &c.hash),
                None => Vec::new(),
            };
            let tags = match branch_tree {
                Some(bt) => tag_names_at(&bt.tags, &c.hash),
                None => Vec::new(),
            };
            let mut parent_hashes: Vec<String> = Vec::new();
            let mut i: usize = 0;
            while i < c.parent_hashes.len()
                invariant
                    i <= c.parent_hashes@.len(),
                    parent_hashes@.len() == i,
                    forall|j: int|
                        0 <= j < i ==> #[trigger] parent_hashes@[j]@ == spec_take_chars(
                            c.parent_hashes@[j]@,
                            10,
                        ),
                decreases c.parent_hashes@.len() - i,
            {
                parent_hashes.push(take_chars(c.parent_hashes[i].as_str(), 10));
                i = i + 1;
            }
            Some(
                CommitInfo {
                    hash: c.hash.clone(),
                    author_name: c.author_name.clone(),
                    author_email: c.author_email.clone(),
                    author_date: c.author_date,
                    parent_hashes,
                    branches,
                    tags,
                },
            )
        },
    }
}

/// How a file's status in a commit's diff shows in the changed-files list.
pub open spec fn spec_diff_status_as_working(s: FileStatus) -> WorkingDirStatus {
    match s {
        FileStatus::Modified => WorkingDirStatus::Modified,
        FileStatus::Added => WorkingDirStatus::Untracked,
        FileStatus::Deleted => WorkingDirStatus::Deleted,
        FileStatus::Renamed => WorkingDirStatus::Renamed,
        FileStatus::Copied => WorkingDirStatus::Modified,
    }
}

pub fn map_diff_status_to_working_status(status: &FileStatus) -> (r: WorkingDirStatus)
    ensures
        r == spec_diff_status_as_working(*status),
{
    match status {
        FileStatus::Modified => WorkingDirStatus::Modified,
        FileStatus::Added => WorkingDirStatus::Untracked,
        FileStatus::Deleted => WorkingDirStatus::Deleted,
        FileStatus::Renamed => WorkingDirStatus::Renamed,
        FileStatus::Copied => WorkingDirStatus::Modified,
    }
}

/// The changed-files entry a file of a commit's diff becomes: shown as staged.
pub open spec fn spec_diff_entry(fd: FileDiff) -> WorkingDirFile {
    WorkingDirFile { path: fd.path, status: spec_diff_status_as_working(fd.status), is_staged: true }
}

/// The changed-files state of a commit view: every file of the diff listed as staged,
/// nothing selected, the commit's message and details, an empty commit panel.
pub open spec fn is_commit_view_files(
    cf: ChangedFilesState,
    diff: Seq<FileDiff>,
    message: Seq<char>,
    info: Option<CommitInfo>,
) -> bool {
    &&& cf.staged@ == diff.map_values(|fd: FileDiff| spec_diff_entry(fd))
    &&& cf.unstaged@.len() == 0
    &&& cf.untracked@.len() == 0
    &&& cf.conflicted@.len() == 0
    &&& cf.selected_file is None
    &&& cf.selected_files@.len() == 0
    &&& cf.last_clicked_file is None
    &&& cf.commit_message@ == message
    &&& cf.is_commit_view
    &&& cf.commit_info == info
    &&& cf.commit_summary@.len() == 0
    &&& cf.commit_description@.len() == 0
    &&& !cf.amend_last_commit
    &&& !cf.push_after_commit
}

/// In a commit view the files of the commit's diff are listed in order as staged, each
/// under its path and with a status that tells the kinds of change apart: a deleted file
/// as deleted, an added one as untracked, a renamed one as renamed, and a modified (or
/// copied) one as modified.
pub proof fn lemma_commit_view_statuses(
    cf: ChangedFilesState,
    diff: Seq<FileDiff>,
    message: Seq<char>,
    info: Option<CommitInfo>,
    i: int,
)
    requires
        is_commit_view_files(cf, diff, message, info),
        0 <= i < diff.len(),
    ensures
        cf.staged@.len() == diff.len(),
        cf.staged@[i].path == diff[i].path,
        cf.staged@[i].is_staged,
        (diff[i].status == FileStatus::Deleted) <==> (cf.staged@[i].status == WorkingDirStatus::Deleted),
        (diff[i].status == FileStatus::Added) <==> (cf.staged@[i].status == WorkingDirStatus::Untracked),
        (diff[i].status == FileStatus::Renamed) <==> (cf.staged@[i].status == WorkingDirStatus::Renamed),
        (diff[i].status == FileStatus::Modified || diff[i].status == FileStatus::Copied) <==> (
        cf.staged@[i].status == WorkingDirStatus::Modified),
{
}

pub fn build_commit_view_changed_files(
    diff: &Vec<FileDiff>,
    commit_message: String,
    commit_info: Option<CommitInfo>,
) -> (r: ChangedFilesState)
    ensures
        is_commit_view_files(r, diff@, commit_message@, commit_info),
        r.wf(),
{
    let mut staged: Vec<WorkingDirFile> = Vec::new();
    let mut i: usize = 0;
    while i < diff.len()
        invariant
            i <= diff@.len(),
            staged@ =~= diff@.take(i as int).map_values(|fd: FileDiff| spec_diff_entry(fd)),
        decreases diff@.len() - i,
    {
        let fd = &diff[i];
        staged.push(
            WorkingDirFile {
                path: fd.path.clone(),
                status: map_diff_status_to_working_status(&fd.status),
                is_staged: true,
            },
        );
        i = i + 1;
    }
    assert(diff@.take(diff@.len() as int) =~= diff@);
    ChangedFilesState {
        staged,
        unstaged: Vec::new(),
        untracked: Vec::new(),
        conflicted: Vec::new(),
        selected_file: None,
        selected_files: Vec::new(),
        last_clicked_file: None,
        commit_message,
        is_commit_view: true,
        commit_info,
        commit_summary: String::new(),
        commit_description: String::new(),
        amend_last_commit: false,
        push_after_commit: false,
    }
}

} // verus!
