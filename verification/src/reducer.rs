//! The state reducer: a pure function from a state and a message to the next state
//! and the effect the runtime must perform.
use vstd::prelude::*;

pub mod branch_handlers;
pub mod commit_handlers;
pub mod determinism;
pub mod file_laws;
pub mod file_handlers;
pub mod helpers;
pub mod laws;
pub mod recent;
pub mod repo_handlers;
pub mod sections;

use crate::effect::Effect;
use crate::message::AppMessage;
use crate::state::AppState;
use branch_handlers::{branch_step, is_branch_message};
use commit_handlers::{commit_step, is_commit_message};
use file_handlers::{file_step, is_file_message};
use repo_handlers::{is_repo_message, repo_step};

verus! {

/// What a message does to the state and which effect it asks for. Each message belongs
/// to exactly one of the four groups, whose relation decides it; the others hold trivially.
pub open spec fn reduce_step(old: AppState, msg: AppMessage, new: AppState, eff: Effect) -> bool {
    &&& repo_step(old, msg, new, eff)
    &&& commit_step(old, msg, new, eff)
    &&& branch_step(old, msg, new, eff)
    &&& file_step(old, msg, new, eff)
}

/// Every message is taken by exactly one handler.
pub proof fn lemma_message_groups(msg: AppMessage)
    ensures
        is_repo_message(msg) || is_commit_message(msg) || is_branch_message(msg)
            || is_file_message(msg),
        !(is_repo_message(msg) && is_commit_message(msg)),
        !(is_repo_message(msg) && is_branch_message(msg)),
        !(is_repo_message(msg) && is_file_message(msg)),
        !(is_commit_message(msg) && is_branch_message(msg)),
        !(is_commit_message(msg) && is_file_message(msg)),
        !(is_branch_message(msg) && is_file_message(msg)),
{
}

/// Pure reducer function that updates state based on messages.
///
/// It performs no I/O: the state it leaves and the effect it returns are given, message by
/// message, by `reduce_step`, which fixes them from the state and the message alone
/// (`determinism::lemma_reduce_deterministic`), and it keeps the state well formed.
pub fn reduce(state: &mut AppState, msg: AppMessage) -> (eff: Effect)
    requires
        old(state).wf(),
        msg.wf(),
    ensures
        reduce_step(*old(state), msg, *final(state), eff),
        final(state).wf(),
{
    if is_repo_msg(&msg) {
        repo_handlers::handle(state, msg)
    } else if is_commit_msg(&msg) {
        commit_handlers::handle(state, msg)
    } else if is_branch_msg(&msg) {
        branch_handlers::handle(state, msg)
    } else {
        file_handlers::handle(state, msg)
    }
}

fn is_repo_msg(msg: &AppMessage) -> (r: bool)
    ensures
        r == is_repo_message(*msg),
{
    match msg {
        AppMessage::OpenRepoRequested(_) | AppMessage::RepoOpened { .. } | AppMessage::CloseRepo
        | AppMessage::RefreshRepo | AppMessage::RepoRefreshed { .. } | AppMessage::Error(_)
        | AppMessage::ClearError | AppMessage::LoadWorkingDirStatusRequested
        | AppMessage::WorkingDirStatusLoaded(_) => true,
        _ => false,
    }
}

fn is_commit_msg(msg: &AppMessage) -> (r: bool)
    ensures
        r == is_commit_message(*msg),
{
    match msg {
        AppMessage::LoadCommitHistoryRequested | AppMessage::CommitHistoryLoaded(_)
        | AppMessage::CommitSelected(_) | AppMessage::CommitDeselected
        | AppMessage::CommitDiffLoaded { .. } | AppMessage::StageFileRequested(_)
        | AppMessage::UnstageFileRequested(_) | AppMessage::StageAllRequested
        | AppMessage::UnstageAllRequested | AppMessage::StagingCompleted
        | AppMessage::StagingProgress { .. } | AppMessage::CommitMessageUpdated(_)
        | AppMessage::CreateCommitRequested | AppMessage::CommitCreated { .. }
        | AppMessage::AuthorIdentityLoaded { .. } | AppMessage::CommitSummaryUpdated(_)
        | AppMessage::CommitDescriptionUpdated(_) | AppMessage::AmendLastCommitToggled(_)
        | AppMessage::PushAfterCommitToggled(_) | AppMessage::CommitChangesRequested { .. } => true,
        _ => false,
    }
}

fn is_branch_msg(msg: &AppMessage) -> (r: bool)
    ensures
        r == is_branch_message(*msg),
{
    match msg {
        AppMessage::LoadBranchTreeRequested | AppMessage::BranchTreeLoaded(_)
        | AppMessage::BranchSectionToggled(_) | AppMessage::BranchSelected { .. }
        | AppMessage::BranchCheckoutRequested { .. }
        | AppMessage::ShowCheckoutWithChangesDialog { .. } | AppMessage::CheckoutWithStash { .. }
        | AppMessage::CheckoutWithDiscard { .. }
        | AppMessage::ShowRemoteBranchConflictDialog { .. }
        | AppMessage::CheckoutRemoteOverride { .. } | AppMessage::CheckoutRemoteRename { .. }
        | AppMessage::ChangesStashed { .. } | AppMessage::ChangesDiscarded
        | AppMessage::BranchCheckedOut(_) => true,
        _ => false,
    }
}

} // verus!
