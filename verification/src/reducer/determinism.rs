//! The reducer is deterministic: one state and one message give one next state and one
//! effect. Strings and lists that the reducer builds afresh are fixed by their contents,
//! so two results are compared by what they hold.
use vstd::prelude::*;

use crate::effect::Effect;
use crate::git::hunks_view;
use crate::message::AppMessage;
use crate::reducer::file_handlers::pairs_view;
use crate::reducer::branch_handlers::{branch_step, is_branch_message};
use crate::reducer::commit_handlers::{commit_step, is_commit_message};
use crate::reducer::file_handlers::{file_step, is_file_message};
use crate::reducer::repo_handlers::{is_repo_message, repo_step};
use crate::reducer::{lemma_message_groups, reduce_step};
use crate::state::{
    AppState, BranchConflictDialog, BranchTreeState, ChangedFilesState, CheckoutChangesDialog,
    CommitInfo, FileViewState, RepoState, StagingProgress,
};
use crate::text::texts;

verus! {

/// Two optional strings with the same text.
pub open spec fn same_opt_text(a: Option<String>, b: Option<String>) -> bool {
    match (a, b) {
        (Some(x), Some(y)) => x@ == y@,
        (None, None) => true,
        _ => false,
    }
}

/// Two commit details with the same contents.
pub open spec fn same_commit_info(a: CommitInfo, b: CommitInfo) -> bool {
    &&& a.hash@ == b.hash@
    &&& a.author_name@ == b.author_name@
    &&& a.author_email@ == b.author_email@
    &&& a.author_date == b.author_date
    &&& texts(a.parent_hashes@) == texts(b.parent_hashes@)
    &&& texts(a.branches@) == texts(b.branches@)
    &&& texts(a.tags@) == texts(b.tags@)
}

/// Two changed-files states with the same contents.
pub open spec fn same_changed_files(a: ChangedFilesState, b: ChangedFilesState) -> bool {
    &&& a.staged@ == b.staged@
    &&& a.unstaged@ == b.unstaged@
    &&& a.untracked@ == b.untracked@
    &&& a.conflicted@ == b.conflicted@
    &&& same_opt_text(a.selected_file, b.selected_file)
    &&& texts(a.selected_files@) == texts(b.selected_files@)
    &&& same_opt_text(a.last_clicked_file, b.last_clicked_file)
    &&& a.commit_message@ == b.commit_message@
    &&& a.is_commit_view == b.is_commit_view
    &&& match (a.commit_info, b.commit_info) {
        (Some(x), Some(y)) => same_commit_info(x, y),
        (None, None) => true,
        _ => false,
    }
    &&& a.commit_summary@ == b.commit_summary@
    &&& a.commit_description@ == b.commit_description@
    &&& a.amend_last_commit == b.amend_last_commit
    &&& a.push_after_commit == b.push_after_commit
}

/// Two branch trees with the same contents.
pub open spec fn same_branch_tree(a: BranchTreeState, b: BranchTreeState) -> bool {
    &&& a.local_branches@ == b.local_branches@
    &&& a.remote_branches@ == b.remote_branches@
    &&& a.tags@ == b.tags@
    &&& a.current_branch@ == b.current_branch@
    &&& texts(a.expanded_sections@) == texts(b.expanded_sections@)
    &&& same_opt_text(a.selected_branch, b.selected_branch)
}

/// Two file viewer states showing the same thing.
pub open spec fn same_file_view(a: FileViewState, b: FileViewState) -> bool {
    match (a, b) {
        (FileViewState::Empty, FileViewState::Empty) => true,
        (
            FileViewState::Content { path: p, content: c, language: l },
            FileViewState::Content { path: q, content: d, language: m },
        ) => p@ == q@ && c@ == d@ && same_opt_text(l, m),
        (
            FileViewState::Diff { path: p, hunks: h, view_mode: v },
            FileViewState::Diff { path: q, hunks: k, view_mode: w },
        ) => p@ == q@ && hunks_view(h@) == hunks_view(k@) && v == w,
        (
            FileViewState::MultipleDiffs { files: f, view_mode: v },
            FileViewState::MultipleDiffs { files: g, view_mode: w },
        ) => pairs_view(f@) == pairs_view(g@) && v == w,
        (
            FileViewState::Binary { path: p, size: s },
            FileViewState::Binary { path: q, size: t },
        ) => p@ == q@ && s == t,
        _ => false,
    }
}

/// Two repository states with the same contents.
pub open spec fn same_repo(a: RepoState, b: RepoState) -> bool {
    &&& a.path@ == b.path@
    &&& a.head@ == b.head@
    &&& texts(a.branches@) == texts(b.branches@)
    &&& a.status_summary == b.status_summary
    &&& a.commits@ == b.commits@
    &&& same_opt_text(a.selected_commit, b.selected_commit)
    &&& match (a.commit_diff, b.commit_diff) {
        (Some(x), Some(y)) => x@ == y@,
        (None, None) => true,
        _ => false,
    }
    &&& a.working_dir_files@ == b.working_dir_files@
    &&& a.commit_message@ == b.commit_message@
    &&& a.author_name@ == b.author_name@
    &&& a.author_email@ == b.author_email@
    &&& match (a.branch_tree, b.branch_tree) {
        (Some(x), Some(y)) => same_branch_tree(x, y),
        (None, None) => true,
        _ => false,
    }
    &&& match (a.changed_files, b.changed_files) {
        (Some(x), Some(y)) => same_changed_files(x, y),
        (None, None) => true,
        _ => false,
    }
    &&& same_file_view(a.file_view, b.file_view)
}

/// Two optional staging progress reports with the same contents.
pub open spec fn same_progress(a: Option<StagingProgress>, b: Option<StagingProgress>) -> bool {
    match (a, b) {
        (Some(x), Some(y)) => x.current == y.current && x.total == y.total && x.operation@
            == y.operation@,
        (None, None) => true,
        _ => false,
    }
}

/// Two optional checkout dialogs with the same contents.
pub open spec fn same_checkout_dialog(
    a: Option<CheckoutChangesDialog>,
    b: Option<CheckoutChangesDialog>,
) -> bool {
    match (a, b) {
        (Some(x), Some(y)) => x.branch_name@ == y.branch_name@ && x.is_remote == y.is_remote,
        (None, None) => true,
        _ => false,
    }
}

/// Two optional branch-conflict dialogs with the same contents.
pub open spec fn same_conflict_dialog(
    a: Option<BranchConflictDialog>,
    b: Option<BranchConflictDialog>,
) -> bool {
    match (a, b) {
        (Some(x), Some(y)) => x.remote_branch@ == y.remote_branch@ && x.local_name@
            == y.local_name@ && x.new_name_input@ == y.new_name_input@,
        (None, None) => true,
        _ => false,
    }
}

/// Two application states with the same contents.
pub open spec fn same_state(a: AppState, b: AppState) -> bool {
    &&& match (a.current_repo, b.current_repo) {
        (Some(x), Some(y)) => same_repo(x, y),
        (None, None) => true,
        _ => false,
    }
    &&& a.loading == b.loading
    &&& a.committing == b.committing
    &&& same_opt_text(a.error, b.error)
    &&& a.config.theme@ == b.config.theme@
    &&& texts(a.config.recent_repos@) == texts(b.config.recent_repos@)
    &&& a.config.max_recent == b.config.max_recent
    &&& same_opt_text(a.config.dock_layout, b.config.dock_layout)
    &&& a.config.commit_drafts@ == b.config.commit_drafts@
    &&& same_progress(a.staging_progress, b.staging_progress)
    &&& same_checkout_dialog(a.checkout_changes_dialog, b.checkout_changes_dialog)
    &&& same_conflict_dialog(a.branch_conflict_dialog, b.branch_conflict_dialog)
}

/// Two effects that ask for the same thing.
pub open spec fn same_effect(a: Effect, b: Effect) -> bool {
    match (a, b) {
        (Effect::Batch(v), Effect::Batch(w)) => v@ == w@,
        (
            Effect::StageFiles { repo_path: p, file_paths: f },
            Effect::StageFiles { repo_path: q, file_paths: g },
        ) => p@ == q@ && texts(f@) == texts(g@),
        (
            Effect::UnstageFiles { repo_path: p, file_paths: f },
            Effect::UnstageFiles { repo_path: q, file_paths: g },
        ) => p@ == q@ && texts(f@) == texts(g@),
        (
            Effect::LoadMultipleFileDiffs { repo_path: p, file_paths: f },
            Effect::LoadMultipleFileDiffs { repo_path: q, file_paths: g },
        ) => p@ == q@ && texts(f@) == texts(g@),
        (
            Effect::CreateCommit { repo_path: p, message: m, amend: x, push: y },
            Effect::CreateCommit { repo_path: q, message: n, amend: u, push: v },
        ) => p@ == q@ && m@ == n@ && x == u && y == v,
        (Effect::OpenInEditor { full_path: p }, Effect::OpenInEditor { full_path: q }) => p@
            == q@,
        (Effect::OpenFolder { full_path: p }, Effect::OpenFolder { full_path: q }) => p@ == q@,
        _ => a == b,
    }
}

proof fn lemma_repo_deterministic(old: AppState, msg: AppMessage, n1: AppState, e1: Effect, n2: AppState, e2: Effect)
    requires
        is_repo_message(msg),
        repo_step(old, msg, n1, e1),
        repo_step(old, msg, n2, e2),
    ensures
        same_state(n1, n2),
{
    if let AppMessage::RepoOpened { .. } = msg {
        let r1 = n1.current_repo->0;
        let r2 = n2.current_repo->0;
        assert(r1.commits@ =~= r2.commits@);
        assert(r1.working_dir_files@ =~= r2.working_dir_files@);
        assert(r1.commit_message@ =~= r2.commit_message@);
        assert(r1.author_name@ =~= r2.author_name@);
        assert(r1.author_email@ =~= r2.author_email@);
    }
}

proof fn lemma_commit_deterministic(old: AppState, msg: AppMessage, n1: AppState, e1: Effect, n2: AppState, e2: Effect)
    requires
        is_commit_message(msg),
        commit_step(old, msg, n1, e1),
        commit_step(old, msg, n2, e2),
    ensures
        same_state(n1, n2),
{
    match msg {
        AppMessage::CommitDiffLoaded { commit_hash, diff } => {
            if n1.current_repo != old.current_repo || n2.current_repo != old.current_repo {
                let r1 = n1.current_repo->0;
                let r2 = n2.current_repo->0;
                let c1 = r1.changed_files->0;
                let c2 = r2.changed_files->0;
                if r1.changed_files is Some && r2.changed_files is Some {
                    assert(c1.unstaged@ =~= c2.unstaged@);
                    assert(c1.untracked@ =~= c2.untracked@);
                    assert(c1.conflicted@ =~= c2.conflicted@);
                    assert(texts(c1.selected_files@) =~= texts(c2.selected_files@));
                    assert(c1.commit_summary@ =~= c2.commit_summary@);
                    assert(c1.commit_description@ =~= c2.commit_description@);
                    if c1.commit_info is Some && c2.commit_info is Some {
                        let i1 = c1.commit_info->0;
                        let i2 = c2.commit_info->0;
                        assert(texts(i1.parent_hashes@) =~= texts(i2.parent_hashes@));
                    }
                }
            }
        },
        AppMessage::CommitCreated { .. } => {
            if old.current_repo is Some {
                let r1 = n1.current_repo->0;
                let r2 = n2.current_repo->0;
                assert(r1.commit_message@ =~= r2.commit_message@);
                if r1.changed_files is Some && r2.changed_files is Some {
                    let c1 = r1.changed_files->0;
                    let c2 = r2.changed_files->0;
                    assert(texts(c1.selected_files@) =~= texts(c2.selected_files@));
                    assert(c1.commit_summary@ =~= c2.commit_summary@);
                    assert(c1.commit_description@ =~= c2.commit_description@);
                }
            }
        },
        _ => {},
    }
}

proof fn lemma_branch_deterministic(old: AppState, msg: AppMessage, n1: AppState, e1: Effect, n2: AppState, e2: Effect)
    requires
        is_branch_message(msg),
        branch_step(old, msg, n1, e1),
        branch_step(old, msg, n2, e2),
    ensures
        same_state(n1, n2),
{
}

proof fn lemma_file_deterministic(old: AppState, msg: AppMessage, n1: AppState, e1: Effect, n2: AppState, e2: Effect)
    requires
        is_file_message(msg),
        file_step(old, msg, n1, e1),
        file_step(old, msg, n2, e2),
    ensures
        same_state(n1, n2),
{
}

/// The reducer is deterministic: whenever two runs of `reduce` start from the same state
/// with the same message, the states they leave hold the same contents and the effects
/// they return ask for the same thing.
pub proof fn lemma_reduce_deterministic(
    old: AppState,
    msg: AppMessage,
    new1: AppState,
    eff1: Effect,
    new2: AppState,
    eff2: Effect,
)
    requires
        old.wf(),
        msg.wf(),
        reduce_step(old, msg, new1, eff1),
        reduce_step(old, msg, new2, eff2),
    ensures
        same_state(new1, new2),
        same_effect(eff1, eff2),
{
    lemma_message_groups(msg);
    if is_repo_message(msg) {
        lemma_repo_deterministic(old, msg, new1, eff1, new2, eff2);
    } else if is_commit_message(msg) {
        lemma_commit_deterministic(old, msg, new1, eff1, new2, eff2);
    } else if is_branch_message(msg) {
        lemma_branch_deterministic(old, msg, new1, eff1, new2, eff2);
    } else {
        lemma_file_deterministic(old, msg, new1, eff1, new2, eff2);
    }

}

} // verus!
