//! How the results of repository work become messages for the reducer: the branch
//! tree, the changed-files lists, the checkout decisions and loaded file contents.
use vstd::prelude::*;

use crate::git::{LocalBranch, RemoteBranch, Tag, WorkingDirFile, WorkingDirStatus};
use crate::message::AppMessage;
use crate::paths::{file_extension, path_extension};
use crate::filters::lemma_filter_push;
use crate::state::{BranchInfo, BranchTreeState, ChangedFilesState, TagInfo};
use crate::text::{concat_str, spec_split_once, split_once_char, texts};

verus! {

// ---------------------------------------------------------------------------
// Branch tree
// ---------------------------------------------------------------------------

/// The branch-tree entry of a local branch.
pub open spec fn spec_local_info(b: LocalBranch) -> BranchInfo {
    BranchInfo {
        name: b.name,
        commit_hash: b.commit_hash,
        is_current: b.is_current,
        upstream: b.upstream,
    }
}

/// The branch-tree entry of a remote branch: never current, no upstream.
pub open spec fn spec_remote_info(b: RemoteBranch) -> BranchInfo {
    BranchInfo { name: b.name, commit_hash: b.commit_hash, is_current: false, upstream: None }
}

/// The branch-tree entry of a tag.
pub open spec fn spec_tag_info(t: Tag) -> TagInfo {
    TagInfo { name: t.name, commit_hash: t.commit_hash, message: t.message }
}

/// The branches of one remote, in listing order.
pub open spec fn spec_remote_group(remotes: Seq<RemoteBranch>, remote: Seq<char>) -> Seq<BranchInfo> {
    remotes.filter(|b: RemoteBranch| b.remote@ == remote).map_values(
        |b: RemoteBranch| spec_remote_info(b),
    )
}

/// Remote branches grouped by remote: one group per remote name (no name twice, every
/// remote named, and no name that is not the remote of a listed branch), each holding
/// that remote's branches in listing order. The order of the groups is left open.
pub open spec fn is_remote_grouping(
    groups: Seq<(String, Vec<BranchInfo>)>,
    remotes: Seq<RemoteBranch>,
) -> bool {
    let keys = groups.map_values(|g: (String, Vec<BranchInfo>)| g.0@);
    &&& keys.no_duplicates()
    &&& forall|i: int| 0 <= i < groups.len() ==> #[trigger] groups[i].1@ == spec_remote_group(
        remotes,
        groups[i].0@,
    )
    &&& forall|k: int| 0 <= k < remotes.len() ==> keys.contains(#[trigger] remotes[k].remote@)
    &&& forall|i: int| 0 <= i < groups.len() ==> is_listed_remote(remotes, #[trigger] groups[i].0@)
}

/// Whether some listed remote branch belongs to the remote `name`.
pub open spec fn is_listed_remote(remotes: Seq<RemoteBranch>, name: Seq<char>) -> bool {
    exists|k: int| 0 <= k < remotes.len() && #[trigger] remotes[k].remote@ == name
}

fn local_info(b: &LocalBranch) -> (r: BranchInfo)
    ensures
        r == spec_local_info(*b),
{
    BranchInfo {
        name: b.name.clone(),
        commit_hash: b.commit_hash.clone(),
        is_current: b.is_current,
        upstream: match &b.upstream {
            Some(u) => Some(u.clone()),
            None => None,
        },
    }
}

fn remote_info(b: &RemoteBranch) -> (r: BranchInfo)
    ensures
        r == spec_remote_info(*b),
{
    BranchInfo {
        name: b.name.clone(),
        commit_hash: b.commit_hash.clone(),
        is_current: false,
        upstream: None,
    }
}

fn tag_info(t: &Tag) -> (r: TagInfo)
    ensures
        r == spec_tag_info(*t),
{
    TagInfo {
        name: t.name.clone(),
        commit_hash: t.commit_hash.clone(),
        message: match &t.message {
            Some(m) => Some(m.clone()),
            None => None,
        },
    }
}

fn group_position(groups: &Vec<(String, Vec<BranchInfo>)>, remote: &String) -> (r: Option<usize>)
    ensures
        match r {
            Some(k) => k < groups@.len() && groups@[k as int].0@ == remote@,
            None => !groups@.map_values(|g: (String, Vec<BranchInfo>)| g.0@).contains(remote@),
        },
{
    let mut k: usize = 0;
    while k < groups.len()
        invariant
            k <= groups@.len(),
            forall|j: int| 0 <= j < k ==> groups@[j].0@ != remote@,
        decreases groups@.len() - k,
    {
        if groups[k].0 == *remote {
            return Some(k);
        }
        k = k + 1;
    }
    proof {
        let keys = groups@.map_values(|g: (String, Vec<BranchInfo>)| g.0@);
        if keys.contains(remote@) {
            let j = choose|j: int| 0 <= j < keys.len() && keys[j] == remote@;
            assert(groups@[j].0@ == remote@);
        }
    }
    None
}

/// Group remote branches by remote (the fold of `execute_load_branch_tree`).
pub fn group_remote_branches(remotes: &Vec<RemoteBranch>) -> (r: Vec<(String, Vec<BranchInfo>)>)
    ensures
        is_remote_grouping(r@, remotes@),
{
    let mut groups: Vec<(String, Vec<BranchInfo>)> = Vec::new();
    let mut i: usize = 0;
    while i < remotes.len()
        invariant
            i <= remotes@.len(),
            is_remote_grouping(groups@, remotes@.take(i as int)),
        decreases remotes@.len() - i,
    {
        let b = &remotes[i];
        let ghost pre = remotes@.take(i as int);
        let ghost post = remotes@.take(i + 1);
        let ghost old_groups = groups@;
        proof {
            assert(post =~= pre.push(*b));
        }
        match group_position(&groups, &b.remote) {
            Some(k) => {
                groups[k].1.push(remote_info(b));
                proof {
                    let keys = groups@.map_values(|g: (String, Vec<BranchInfo>)| g.0@);
                    assert(keys =~= old_groups.map_values(|g: (String, Vec<BranchInfo>)| g.0@));
                    assert forall|j: int| 0 <= j < groups@.len() implies #[trigger] groups@[j].1@
                        == spec_remote_group(post, groups@[j].0@) by {
                        let p = |x: RemoteBranch| x.remote@ == groups@[j].0@;
                        lemma_filter_push(pre, p, *b);
                        assert(pre.push(*b).filter(p).map_values(|x: RemoteBranch| spec_remote_info(x))
                            =~= if p(*b) {
                            pre.filter(p).map_values(|x: RemoteBranch| spec_remote_info(x)).push(
                                spec_remote_info(*b),
                            )
                        } else {
                            pre.filter(p).map_values(|x: RemoteBranch| spec_remote_info(x))
                        });
                        if j != k {
                            assert(keys[j] != keys[k as int]);
                        }
                    }
                    assert forall|m: int| 0 <= m < post.len() implies keys.contains(
                        #[trigger] post[m].remote@,
                    ) by {
                        if m < pre.len() {
                            assert(pre[m] == post[m]);
                        } else {
                            assert(keys[k as int] == b.remote@);
                        }
                    }
                    assert forall|j: int| 0 <= j < groups@.len() implies is_listed_remote(
                        post,
                        #[trigger] groups@[j].0@,
                    ) by {
                        assert(groups@[j].0 == old_groups[j].0);
                        assert(is_listed_remote(pre, old_groups[j].0@));
                        let t = choose|t: int|
                            0 <= t < pre.len() && #[trigger] pre[t].remote@ == old_groups[j].0@;
                        assert(pre[t] == post[t]);
                    }
                }
            },
            None => {
                let mut list: Vec<BranchInfo> = Vec::new();
                list.push(remote_info(b));
                groups.push((b.remote.clone(), list));
                proof {
                    let old_keys = old_groups.map_values(|g: (String, Vec<BranchInfo>)| g.0@);
                    let keys = groups@.map_values(|g: (String, Vec<BranchInfo>)| g.0@);
                    assert(keys =~= old_keys.push(b.remote@));
                    assert(keys.no_duplicates()) by {
                        assert forall|x: int, y: int|
                            0 <= x < keys.len() && 0 <= y < keys.len() && x != y implies keys[x]
                            != keys[y] by {
                            if x == old_keys.len() {
                                assert(old_keys[y] == keys[y]);
                            } else if y == old_keys.len() {
                                assert(old_keys[x] == keys[x]);
                            } else {
                                assert(old_keys[x] == keys[x] && old_keys[y] == keys[y]);
                            }
                        }
                    }
                    assert forall|j: int| 0 <= j < groups@.len() implies #[trigger] groups@[j].1@
                        == spec_remote_group(post, groups@[j].0@) by {
                        let p = |x: RemoteBranch| x.remote@ == groups@[j].0@;
                        lemma_filter_push(pre, p, *b);
                        assert(pre.push(*b).filter(p).map_values(|x: RemoteBranch| spec_remote_info(x))
                            =~= if p(*b) {
                            pre.filter(p).map_values(|x: RemoteBranch| spec_remote_info(x)).push(
                                spec_remote_info(*b),
                            )
                        } else {
                            pre.filter(p).map_values(|x: RemoteBranch| spec_remote_info(x))
                        });
                        if j == old_groups.len() {
                            assert(pre.filter(p).len() == 0) by {
                                if pre.filter(p).len() > 0 {
                                    crate::filters::lemma_filter_contains(pre, p, 0);
                                    let m = choose|m: int|
                                        0 <= m < pre.len() && pre[m] == pre.filter(p)[0];
                                    assert(old_keys.contains(pre[m].remote@));
                                }
                            }
                        } else {
                            assert(old_keys[j] == keys[j]);
                        }
                    }
                    assert forall|m: int| 0 <= m < post.len() implies keys.contains(
                        #[trigger] post[m].remote@,
                    ) by {
                        if m < pre.len() {
                            assert(pre[m] == post[m]);
                            let t = choose|t: int| 0 <= t < old_keys.len() && old_keys[t] == pre[m].remote@;
                            assert(keys[t] == old_keys[t]);
                        } else {
                            assert(keys[old_keys.len() as int] == b.remote@);
                        }
                    }
                    assert forall|j: int| 0 <= j < groups@.len() implies is_listed_remote(
                        post,
                        #[trigger] groups@[j].0@,
                    ) by {
                        if j < old_groups.len() {
                            assert(groups@[j] == old_groups[j]);
                            assert(is_listed_remote(pre, old_groups[j].0@));
                            let t = choose|t: int|
                                0 <= t < pre.len() && #[trigger] pre[t].remote@ == old_groups[j].0@;
                            assert(pre[t] == post[t]);
                        } else {
                            assert(post[i as int] == *b);
                        }
                    }
                }
            },
        }
        i = i + 1;
    }
    assert(remotes@.take(remotes@.len() as int) =~= remotes@);
    groups
}

/// The branch tree built from the repository's branches, tags and `HEAD`: local
/// branches and tags in listing order, remote branches grouped by remote, the local
/// section expanded and nothing selected.
pub open spec fn is_branch_tree_of(
    t: BranchTreeState,
    local: Seq<LocalBranch>,
    remotes: Seq<RemoteBranch>,
    tags: Seq<Tag>,
    head: String,
) -> bool {
    &&& t.local_branches@ == local.map_values(|b: LocalBranch| spec_local_info(b))
    &&& is_remote_grouping(t.remote_branches@, remotes)
    &&& t.tags@ == tags.map_values(|x: Tag| spec_tag_info(x))
    &&& t.current_branch == head
    &&& texts(t.expanded_sections@) == seq!["local"@]
    &&& t.selected_branch is None
}

/// Build the branch tree (`execute_load_branch_tree`).
pub fn build_branch_tree(
    local: &Vec<LocalBranch>,
    remotes: &Vec<RemoteBranch>,
    tags: &Vec<Tag>,
    head: String,
) -> (r: BranchTreeState)
    ensures
        is_branch_tree_of(r, local@, remotes@, tags@, head),
        r.wf(),
{
    let mut local_branches: Vec<BranchInfo> = Vec::new();
    let mut i: usize = 0;
    while i < local.len()
        invariant
            i <= local@.len(),
            local_branches@ =~= local@.take(i as int).map_values(|b: LocalBranch| spec_local_info(b)),
        decreases local@.len() - i,
    {
        local_branches.push(local_info(&local[i]));
        i = i + 1;
    }
    assert(local@.take(local@.len() as int) =~= local@);
    let mut tag_list: Vec<TagInfo> = Vec::new();
    let mut j: usize = 0;
    while j < tags.len()
        invariant
            j <= tags@.len(),
            tag_list@ =~= tags@.take(j as int).map_values(|x: Tag| spec_tag_info(x)),
        decreases tags@.len() - j,
    {
        tag_list.push(tag_info(&tags[j]));
        j = j + 1;
    }
    assert(tags@.take(tags@.len() as int) =~= tags@);
    let mut expanded: Vec<String> = Vec::new();
    expanded.push("local".to_owned());
    assert(texts(expanded@) =~= seq!["local"@]);
    BranchTreeState {
        local_branches,
        remote_branches: group_remote_branches(remotes),
        tags: tag_list,
        current_branch: head,
        expanded_sections: expanded,
        selected_branch: None,
    }
}

// ---------------------------------------------------------------------------
// Changed files
// ---------------------------------------------------------------------------

/// Which list of the changed-files pane a file goes to.
pub open spec fn in_conflicted(f: WorkingDirFile) -> bool {
    f.status == WorkingDirStatus::Conflicted
}

pub open spec fn in_staged(f: WorkingDirFile) -> bool {
    !in_conflicted(f) && f.is_staged
}

pub open spec fn in_untracked(f: WorkingDirFile) -> bool {
    !in_conflicted(f) && !f.is_staged && f.status == WorkingDirStatus::Untracked
}

pub open spec fn in_unstaged(f: WorkingDirFile) -> bool {
    !in_conflicted(f) && !f.is_staged && f.status != WorkingDirStatus::Untracked
}

/// The working-directory view of the changed files: conflicted files, then staged,
/// untracked and the remaining (unstaged) files, each list in status order; nothing
/// selected and an empty commit panel.
pub open spec fn is_working_files_view(cf: ChangedFilesState, files: Seq<WorkingDirFile>) -> bool {
    &&& cf.conflicted@ == files.filter(|f: WorkingDirFile| in_conflicted(f))
    &&& cf.staged@ == files.filter(|f: WorkingDirFile| in_staged(f))
    &&& cf.untracked@ == files.filter(|f: WorkingDirFile| in_untracked(f))
    &&& cf.unstaged@ == files.filter(|f: WorkingDirFile| in_unstaged(f))
    &&& cf.selected_file is None
    &&& cf.selected_files@.len() == 0
    &&& cf.last_clicked_file is None
    &&& cf.commit_message@.len() == 0
    &&& !cf.is_commit_view
    &&& cf.commit_info is None
    &&& cf.commit_summary@.len() == 0
    &&& cf.commit_description@.len() == 0
    &&& !cf.amend_last_commit
    &&& !cf.push_after_commit
}

fn copy_file(f: &WorkingDirFile) -> (r: WorkingDirFile)
    ensures
        r == *f,
{
    WorkingDirFile { path: f.path.clone(), status: f.status, is_staged: f.is_staged }
}

/// Sort the working-directory files into the lists of the changed-files pane
/// (`execute_load_changed_files`).
pub fn partition_changed_files(files: &Vec<WorkingDirFile>) -> (r: ChangedFilesState)
    ensures
        is_working_files_view(r, files@),
        r.wf(),
{
    let ghost pc = |f: WorkingDirFile| in_conflicted(f);
    let ghost ps = |f: WorkingDirFile| in_staged(f);
    let ghost pt = |f: WorkingDirFile| in_untracked(f);
    let ghost pu = |f: WorkingDirFile| in_unstaged(f);
    let mut staged: Vec<WorkingDirFile> = Vec::new();
    let mut unstaged: Vec<WorkingDirFile> = Vec::new();
    let mut untracked: Vec<WorkingDirFile> = Vec::new();
    let mut conflicted: Vec<WorkingDirFile> = Vec::new();
    let mut i: usize = 0;
    while i < files.len()
        invariant
            i <= files@.len(),
            conflicted@ == files@.take(i as int).filter(pc),
            staged@ == files@.take(i as int).filter(ps),
            untracked@ == files@.take(i as int).filter(pt),
            unstaged@ == files@.take(i as int).filter(pu),
            pc == (|f: WorkingDirFile| in_conflicted(f)),
            ps == (|f: WorkingDirFile| in_staged(f)),
            pt == (|f: WorkingDirFile| in_untracked(f)),
            pu == (|f: WorkingDirFile| in_unstaged(f)),
        decreases files@.len() - i,
    {
        let f = &files[i];
        proof {
            let t = files@.take(i as int);
            assert(files@.take(i + 1) =~= t.push(files@[i as int]));
            lemma_filter_push(t, pc, files@[i as int]);
            lemma_filter_push(t, ps, files@[i as int]);
            lemma_filter_push(t, pt, files@[i as int]);
            lemma_filter_push(t, pu, files@[i as int]);
        }
        if f.status == WorkingDirStatus::Conflicted {
            conflicted.push(copy_file(f));
        } else if f.is_staged {
            staged.push(copy_file(f));
        } else if f.status == WorkingDirStatus::Untracked {
            untracked.push(copy_file(f));
        } else {
            unstaged.push(copy_file(f));
        }
        i = i + 1;
    }
    assert(files@.take(files@.len() as int) =~= files@);
    ChangedFilesState {
        staged,
        unstaged,
        untracked,
        conflicted,
        selected_file: None,
        selected_files: Vec::new(),
        last_clicked_file: None,
        commit_message: String::new(),
        is_commit_view: false,
        commit_info: None,
        commit_summary: String::new(),
        commit_description: String::new(),
        amend_last_commit: false,
        push_after_commit: false,
    }
}

// ---------------------------------------------------------------------------
// Checkout flow
// ---------------------------------------------------------------------------

/// The local name a remote branch `remote/branch` is checked out under: the part after
/// the first `/`, or the whole name when it holds none.
pub open spec fn spec_local_branch_name(branch_name: Seq<char>) -> Seq<char> {
    match spec_split_once(branch_name, '/') {
        Some((_, branch)) => branch,
        None => branch_name,
    }
}

pub fn local_branch_name(branch_name: &str) -> (r: String)
    ensures
        r@ == spec_local_branch_name(branch_name@),
{
    match split_once_char(branch_name, '/') {
        Some((_remote, branch)) => branch,
        None => branch_name.to_owned(),
    }
}

/// The next step of a checkout once a repository check has answered.
#[derive(Debug)]
pub enum CheckoutStep {
    /// Send this message; the checkout flow ends here.
    Reply(AppMessage),
    /// Ask whether a local branch named `local_name` exists.
    CheckLocalBranch { remote_branch: String, local_name: String },
    /// Check out the local branch `branch_name`, then send `BranchCheckedOut` with it.
    Checkout { branch_name: String },
}

/// The step after asking for uncommitted changes before checking out `branch_name`
/// (`execute_check_uncommitted_changes`): with changes the user is asked what to do
/// with them; else a remote branch needs to know whether its local name is taken, and
/// a local branch is checked out.
pub fn plan_after_change_check(branch_name: String, is_remote: bool, has_changes: bool) -> (r:
    CheckoutStep)
    ensures
        has_changes ==> r == CheckoutStep::Reply(
            AppMessage::ShowCheckoutWithChangesDialog { branch_name, is_remote },
        ),
        !has_changes && is_remote ==> (r matches CheckoutStep::CheckLocalBranch {
            remote_branch,
            local_name,
        } && remote_branch == branch_name && local_name@ == spec_local_branch_name(branch_name@)),
        !has_changes && !is_remote ==> r == (CheckoutStep::Checkout { branch_name }),
{
    if has_changes {
        CheckoutStep::Reply(AppMessage::ShowCheckoutWithChangesDialog { branch_name, is_remote })
    } else if is_remote {
        let local_name = local_branch_name(branch_name.as_str());
        CheckoutStep::CheckLocalBranch { remote_branch: branch_name, local_name }
    } else {
        CheckoutStep::Checkout { branch_name }
    }
}

/// After learning whether the local name of a clean remote checkout is taken: an
/// existing local branch is checked out; otherwise a tracking branch is created.
pub fn plan_after_local_check(remote_branch: String, local_name: String, exists: bool) -> (r:
    CheckoutStep)
    ensures
        r == (if exists {
            CheckoutStep::Checkout { branch_name: local_name }
        } else {
            CheckoutStep::Reply(AppMessage::CheckoutRemoteOverride { remote_branch, local_name })
        }),
{
    if exists {
        CheckoutStep::Checkout { branch_name: local_name }
    } else {
        CheckoutStep::Reply(AppMessage::CheckoutRemoteOverride { remote_branch, local_name })
    }
}

/// After the changes were stashed or discarded (`execute_stash_and_checkout`,
/// `execute_discard_and_checkout`): a remote branch gets a tracking branch under its
/// local name, a local branch is checked out.
pub fn plan_after_clearing(branch_name: String, is_remote: bool) -> (r: CheckoutStep)
    ensures
        is_remote ==> (r matches CheckoutStep::Reply(
            AppMessage::CheckoutRemoteOverride { remote_branch, local_name },
        ) && remote_branch == branch_name && local_name@ == spec_local_branch_name(branch_name@)),
        !is_remote ==> r == (CheckoutStep::Checkout { branch_name }),
{
    if is_remote {
        let local_name = local_branch_name(branch_name.as_str());
        CheckoutStep::Reply(AppMessage::CheckoutRemoteOverride { remote_branch: branch_name, local_name })
    } else {
        CheckoutStep::Checkout { branch_name }
    }
}

/// The answer to a local-name check for a remote checkout
/// (`execute_check_local_branch_exists`): a taken name asks the user, a free one
/// creates the tracking branch.
pub fn reply_after_name_check(remote_branch: String, local_name: String, exists: bool) -> (r:
    AppMessage)
    ensures
        r == (if exists {
            AppMessage::ShowRemoteBranchConflictDialog { remote_branch, local_name }
        } else {
            AppMessage::CheckoutRemoteOverride { remote_branch, local_name }
        }),
{
    if exists {
        AppMessage::ShowRemoteBranchConflictDialog { remote_branch, local_name }
    } else {
        AppMessage::CheckoutRemoteOverride { remote_branch, local_name }
    }
}

/// The stash message used when switching branches with uncommitted changes.
pub open spec fn spec_stash_message(from: Seq<char>, to: Seq<char>, time: Seq<char>) -> Seq<char> {
    "WIP: switching from "@ + from + " to "@ + to + " - "@ + time
}

pub fn stash_message(from_branch: &str, to_branch: &str, time: &str) -> (r: String)
    ensures
        r@ == spec_stash_message(from_branch@, to_branch@, time@),
{
    let a = concat_str("WIP: switching from ", from_branch);
    let b = concat_str(a.as_str(), " to ");
    let c = concat_str(b.as_str(), to_branch);
    let d = concat_str(c.as_str(), " - ");
    concat_str(d.as_str(), time)
}

// ---------------------------------------------------------------------------
// File contents
// ---------------------------------------------------------------------------

/// The text of the error for a content load that produced neither text nor a size.
pub open spec fn unexpected_content_text() -> Seq<char> {
    "Unexpected result from file content loading"@
}

/// The message for a loaded file (`execute_load_file_content`): its text with the
/// language named by the path's extension, or the binary size; an error when the load
/// gave both or neither.
pub fn file_content_message(path: String, content: Option<String>, binary_size: Option<u64>) -> (r:
    Result<AppMessage, String>)
    ensures
        match (content, binary_size) {
            (Some(text), None) => r matches Ok(
                AppMessage::FileContentLoaded { path: p, content: c, language },
            ) && p == path && c == text && match language {
                Some(l) => path_extension(path@) == Some(l@),
                None => path_extension(path@) is None,
            },
            (None, Some(size)) => r == Ok::<AppMessage, String>(
                AppMessage::BinaryFileDetected { path, size },
            ),
            _ => r matches Err(e) && e@ == unexpected_content_text(),
        },
{
    match (content, binary_size) {
        (Some(text), None) => {
            let language = file_extension(path.as_str());
            Ok(AppMessage::FileContentLoaded { path, content: text, language })
        },
        (None, Some(size)) => Ok(AppMessage::BinaryFileDetected { path, size }),
        _ => Err("Unexpected result from file content loading".to_owned()),
    }
}

proof fn lemma_partition_count(files: Seq<WorkingDirFile>)
    ensures
        files.filter(|f: WorkingDirFile| in_conflicted(f)).len() + files.filter(
            |f: WorkingDirFile| in_staged(f),
        ).len() + files.filter(|f: WorkingDirFile| in_untracked(f)).len() + files.filter(
            |f: WorkingDirFile| in_unstaged(f),
        ).len() == files.len(),
    decreases files.len(),
{
    reveal(Seq::filter);
    if files.len() > 0 {
        lemma_partition_count(files.drop_last());
    }
}

/// Sorting the working-directory files into the four lists loses no file and lists none
/// twice: every file goes to exactly one list, and the lists hold as many files as
/// there are.
pub proof fn lemma_partition_complete(cf: ChangedFilesState, files: Seq<WorkingDirFile>)
    requires
        is_working_files_view(cf, files),
    ensures
        cf.conflicted@.len() + cf.staged@.len() + cf.untracked@.len() + cf.unstaged@.len()
            == files.len(),
        forall|f: WorkingDirFile|
            #![trigger in_conflicted(f)]
            (in_conflicted(f) as int) + (in_staged(f) as int) + (in_untracked(f) as int) + (
            in_unstaged(f) as int) == 1,
{
    lemma_partition_count(files);
}

proof fn lemma_filter_member(files: Seq<WorkingDirFile>, p: spec_fn(WorkingDirFile) -> bool)
    ensures
        forall|i: int| 0 <= i < files.len() ==> (files.filter(p).contains(#[trigger] files[i]) <==> p(files[i])),
        forall|k: int| 0 <= k < files.filter(p).len() ==> files.contains(#[trigger] files.filter(p)[k]),
{
    assert forall|i: int| 0 <= i < files.len() implies (files.filter(p).contains(#[trigger] files[i]) <==> p(files[i])) by {
        if p(files[i]) {
            files.lemma_filter_contains(p, i);
        }
        if files.filter(p).contains(files[i]) {
            let k = choose|k: int| 0 <= k < files.filter(p).len() && files.filter(p)[k] == files[i];
            crate::filters::lemma_filter_contains(files, p, k);
        }
    }
    assert forall|k: int| 0 <= k < files.filter(p).len() implies files.contains(#[trigger] files.filter(p)[k]) by {
        crate::filters::lemma_filter_contains(files, p, k);
    }
}

/// Each working-directory file is listed by its own status: as conflicted exactly when it
/// has a conflict; otherwise as staged exactly when it has a staged change, as untracked
/// exactly when it is an unstaged new file, and as unstaged in the remaining cases; and
/// every listed file is one of the files.
pub proof fn lemma_files_listed_by_status(cf: ChangedFilesState, files: Seq<WorkingDirFile>)
    requires
        is_working_files_view(cf, files),
    ensures
        forall|i: int|
            0 <= i < files.len() ==> (cf.conflicted@.contains(#[trigger] files[i]) <==> files[i].status
                == WorkingDirStatus::Conflicted),
        forall|i: int|
            0 <= i < files.len() ==> (cf.staged@.contains(#[trigger] files[i]) <==> (files[i].status
                != WorkingDirStatus::Conflicted && files[i].is_staged)),
        forall|i: int|
            0 <= i < files.len() ==> (cf.untracked@.contains(#[trigger] files[i]) <==> (
            files[i].status == WorkingDirStatus::Untracked && !files[i].is_staged)),
        forall|i: int|
            0 <= i < files.len() ==> (cf.unstaged@.contains(#[trigger] files[i]) <==> (
            files[i].status != WorkingDirStatus::Conflicted && files[i].status
                != WorkingDirStatus::Untracked && !files[i].is_staged)),
        forall|k: int| 0 <= k < cf.conflicted@.len() ==> files.contains(#[trigger] cf.conflicted@[k]),
        forall|k: int| 0 <= k < cf.staged@.len() ==> files.contains(#[trigger] cf.staged@[k]),
        forall|k: int| 0 <= k < cf.untracked@.len() ==> files.contains(#[trigger] cf.untracked@[k]),
        forall|k: int| 0 <= k < cf.unstaged@.len() ==> files.contains(#[trigger] cf.unstaged@[k]),
{
    lemma_filter_member(files, |f: WorkingDirFile| in_conflicted(f));
    lemma_filter_member(files, |f: WorkingDirFile| in_staged(f));
    lemma_filter_member(files, |f: WorkingDirFile| in_untracked(f));
    lemma_filter_member(files, |f: WorkingDirFile| in_unstaged(f));
}

} // verus!
