//! The branch tree, branch selection and the checkout flow with its dialogs.
use vstd::prelude::*;

use crate::effect::Effect;
use crate::message::AppMessage;
use crate::reducer::commit_handlers::update_repo;
use crate::reducer::sections::{spec_toggle, toggle_text};
use crate::state::{
    AppState, BranchConflictDialog, BranchTreeState, CheckoutChangesDialog, RepoState,
};

verus! {

/// The open repository with its branch tree (when there is one) replaced by `f` of it.
pub open spec fn update_branch_tree(
    repo: Option<RepoState>,
    f: spec_fn(BranchTreeState) -> BranchTreeState,
) -> Option<RepoState> {
    match repo {
        Some(r) => Some(
            RepoState {
                branch_tree: match r.branch_tree {
                    Some(t) => Some(f(t)),
                    None => None,
                },
                ..r
            },
        ),
        None => None,
    }
}

/// What the branch messages do to the state, and the effect they ask for.
pub open spec fn branch_step(old: AppState, msg: AppMessage, new: AppState, eff: Effect) -> bool {
    match msg {
        AppMessage::LoadBranchTreeRequested => {
            &&& new == AppState { loading: true, ..old }
            &&& eff == match old.current_repo {
                Some(r) => Effect::LoadBranchTree(r.path),
                None => Effect::Nothing,
            }
        },
        AppMessage::BranchTreeLoaded(tree) => {
            &&& new == AppState {
                loading: false,
                current_repo: update_repo(
                    old.current_repo,
                    |r: RepoState| RepoState { branch_tree: Some(tree), ..r },
                ),
                ..old
            }
            &&& eff == Effect::Nothing
        },
        AppMessage::BranchSectionToggled(section) => {
            &&& eff == Effect::Nothing
            &&& match old.current_repo {
                Some(r) => match r.branch_tree {
                    Some(t) => new.current_repo matches Some(nr) && nr.branch_tree matches Some(nt)
                        && nt.expanded_sections@ == spec_toggle(t.expanded_sections@, section) && nt
                        == BranchTreeState { expanded_sections: nt.expanded_sections, ..t } && nr
                        == RepoState { branch_tree: Some(nt), ..r } && new == AppState {
                        current_repo: Some(nr),
                        ..old
                    },
                    None => new == old,
                },
                None => new == old,
            }
        },
        AppMessage::BranchSelected { name, is_remote } => {
            &&& new == AppState {
                current_repo: update_branch_tree(
                    old.current_repo,
                    |t: BranchTreeState| BranchTreeState { selected_branch: Some(name), ..t },
                ),
                ..old
            }
            &&& eff == Effect::Nothing
        },
        AppMessage::BranchCheckoutRequested { name, is_remote } => match old.current_repo {
            Some(r) => {
                &&& new == AppState { loading: true, ..old }
                &&& eff == Effect::CheckUncommittedChanges {
                    repo_path: r.path,
                    branch_name: name,
                    is_remote,
                }
            },
            None => new == old && eff == Effect::Nothing,
        },
        AppMessage::ShowCheckoutWithChangesDialog { branch_name, is_remote } => {
            &&& new == AppState {
                loading: false,
                checkout_changes_dialog: Some(CheckoutChangesDialog { branch_name, is_remote }),
                ..old
            }
            &&& eff == Effect::Nothing
        },
        AppMessage::CheckoutWithStash { branch_name, is_remote } => match old.current_repo {
            Some(r) => {
                &&& new == AppState { checkout_changes_dialog: None, loading: true, ..old }
                &&& eff == Effect::StashAndCheckout {
                    repo_path: r.path,
                    branch_name,
                    is_remote,
                    from_branch: r.head,
                }
            },
            None => new == AppState { checkout_changes_dialog: None, ..old } && eff
                == Effect::Nothing,
        },
        AppMessage::CheckoutWithDiscard { branch_name, is_remote } => match old.current_repo {
            Some(r) => {
                &&& new == AppState { checkout_changes_dialog: None, loading: true, ..old }
                &&& eff == Effect::DiscardAndCheckout { repo_path: r.path, branch_name, is_remote }
            },
            None => new == AppState { checkout_changes_dialog: None, ..old } && eff
                == Effect::Nothing,
        },
        AppMessage::ShowRemoteBranchConflictDialog { remote_branch, local_name } => {
            &&& new == AppState {
                branch_conflict_dialog: Some(
                    BranchConflictDialog { remote_branch, local_name, new_name_input: local_name },
                ),
                ..old
            }
            &&& eff == Effect::Nothing
        },
        AppMessage::CheckoutRemoteOverride { remote_branch, local_name } =>
            match old.current_repo {
            Some(r) => {
                &&& new == AppState { branch_conflict_dialog: None, loading: true, ..old }
                &&& eff == Effect::CheckoutRemoteBranch {
                    repo_path: r.path,
                    remote_branch,
                    local_name,
                    override_existing: true,
                }
            },
            None => new == AppState { branch_conflict_dialog: None, ..old } && eff
                == Effect::Nothing,
        },
        AppMessage::CheckoutRemoteRename { remote_branch, new_local_name } =>
            match old.current_repo {
            Some(r) => {
                &&& new == AppState { branch_conflict_dialog: None, loading: true, ..old }
                &&& eff == Effect::CheckoutRemoteBranch {
                    repo_path: r.path,
                    remote_branch,
                    local_name: new_local_name,
                    override_existing: false,
                }
            },
            None => new == AppState { branch_conflict_dialog: None, ..old } && eff
                == Effect::Nothing,
        },
        AppMessage::ChangesStashed { .. } | AppMessage::ChangesDiscarded => {
            &&& new == old
            &&& match old.current_repo {
                Some(r) => eff matches Effect::Batch(v) && v@ == seq![
                    Effect::LoadBranchTree(r.path),
                    Effect::LoadWorkingDirStatus(r.path),
                ],
                None => eff == Effect::Nothing,
            }
        },
        AppMessage::BranchCheckedOut(_) => {
            &&& new == AppState { loading: false, ..old }
            &&& match old.current_repo {
                Some(r) => eff matches Effect::Batch(v) && v@ == seq![
                    Effect::RefreshRepo(r.path),
                    Effect::LoadBranchTree(r.path),
                    Effect::LoadChangedFiles(r.path),
                    Effect::LoadCommitHistory(r.path),
                ],
                None => eff == Effect::Nothing,
            }
        },
        _ => true,
    }
}

/// Whether the message is one the branch handler takes.
pub open spec fn is_branch_message(msg: AppMessage) -> bool {
    match msg {
        AppMessage::LoadBranchTreeRequested | AppMessage::BranchTreeLoaded(_)
        | AppMessage::BranchSectionToggled(_) | AppMessage::BranchSelected { .. }
        | AppMessage::BranchCheckoutRequested { .. }
        | AppMessage::ShowCheckoutWithChangesDialog { .. } | AppMessage::CheckoutWithStash { .. }
        | AppMessage::CheckoutWithDiscard { .. }
        | AppMessage::ShowRemoteBranchConflictDialog { .. }
        | AppMessage::CheckoutRemoteOverride { .. } | AppMessage::CheckoutRemoteRename { .. }
        | AppMessage::ChangesStashed { .. } | AppMessage::ChangesDiscarded
        | AppMessage::BranchCheckedOut(_) => true,
        _ => false,
    }
}

pub fn handle(state: &mut AppState, msg: AppMessage) -> (eff: Effect)
    requires
        is_branch_message(msg),
        old(state).wf(),
        msg.wf(),
    ensures
        branch_step(*old(state), msg, *final(state), eff),
        final(state).wf(),
{
    match msg {
        AppMessage::LoadBranchTreeRequested => {
            state.loading = true;
            if let Some(repo) = &state.current_repo {
                Effect::LoadBranchTree(repo.path.clone())
            } else {
                Effect::Nothing
            }
        },
        AppMessage::BranchTreeLoaded(branch_tree) => {
            state.loading = false;
            if let Some(repo) = &mut state.current_repo {
                repo.branch_tree = Some(branch_tree);
            }
            Effect::Nothing
        },
        AppMessage::BranchSectionToggled(section) => {
            if let Some(repo) = &mut state.current_repo {
                if let Some(tree) = &mut repo.branch_tree {
                    toggle_text(&mut tree.expanded_sections, section);
                }
            }
            Effect::Nothing
        },
        AppMessage::BranchSelected { name, is_remote: _ } => {
            if let Some(repo) = &mut state.current_repo {
                if let Some(tree) = &mut repo.branch_tree {
                    tree.selected_branch = Some(name);
                }
            }
            Effect::Nothing
        },
        AppMessage::BranchCheckoutRequested { name, is_remote } => {
            if let Some(repo) = &state.current_repo {
                let repo_path = repo.path.clone();
                state.loading = true;
                Effect::CheckUncommittedChanges { repo_path, branch_name: name, is_remote }
            } else {
                Effect::Nothing
            }
        },
        AppMessage::ShowCheckoutWithChangesDialog { branch_name, is_remote } => {
            state.loading = false;
            state.checkout_changes_dialog = Some(CheckoutChangesDialog { branch_name, is_remote });
            Effect::Nothing
        },
        AppMessage::CheckoutWithStash { branch_name, is_remote } => {
            state.checkout_changes_dialog = None;
            if let Some(repo) = &state.current_repo {
                let repo_path = repo.path.clone();
                let from_branch = repo.head.clone();
                state.loading = true;
                Effect::StashAndCheckout { repo_path, branch_name, is_remote, from_branch }
            } else {
                Effect::Nothing
            }
        },
        AppMessage::CheckoutWithDiscard { branch_name, is_remote } => {
            state.checkout_changes_dialog = None;
            if let Some(repo) = &state.current_repo {
                let repo_path = repo.path.clone();
                state.loading = true;
                Effect::DiscardAndCheckout { repo_path, branch_name, is_remote }
            } else {
                Effect::Nothing
            }
        },
        AppMessage::ShowRemoteBranchConflictDialog { remote_branch, local_name } => {
            state.branch_conflict_dialog = Some(
                BranchConflictDialog {
                    remote_branch,
                    local_name: local_name.clone(),
                    new_name_input: local_name,
                },
            );
            Effect::Nothing
        },
        AppMessage::CheckoutRemoteOverride { remote_branch, local_name } => {
            state.branch_conflict_dialog = None;
            if let Some(repo) = &state.current_repo {
                let repo_path = repo.path.clone();
                state.loading = true;
                Effect::CheckoutRemoteBranch {
                    repo_path,
                    remote_branch,
                    local_name,
                    override_existing: true,
                }
            } else {
                Effect::Nothing
            }
        },
        AppMessage::CheckoutRemoteRename { remote_branch, new_local_name } => {
            state.branch_conflict_dialog = None;
            if let Some(repo) = &state.current_repo {
                let repo_path = repo.path.clone();
                state.loading = true;
                Effect::CheckoutRemoteBranch {
                    repo_path,
                    remote_branch,
                    local_name: new_local_name,
                    override_existing: false,
                }
            } else {
                Effect::Nothing
            }
        },
        AppMessage::ChangesStashed { .. } | AppMessage::ChangesDiscarded => {
            if let Some(repo) = &state.current_repo {
                let mut effects: Vec<Effect> = Vec::new();
                effects.push(Effect::LoadBranchTree(repo.path.clone()));
                effects.push(Effect::LoadWorkingDirStatus(repo.path.clone()));
                assert(effects@ =~= seq![
                    Effect::LoadBranchTree(repo.path),
                    Effect::LoadWorkingDirStatus(repo.path),
                ]);
                Effect::Batch(effects)
            } else {
                Effect::Nothing
            }
        },
        AppMessage::BranchCheckedOut(_) => {
            state.loading = false;
            if let Some(repo) = &state.current_repo {
                let mut effects: Vec<Effect> = Vec::new();
                effects.push(Effect::RefreshRepo(repo.path.clone()));
                effects.push(Effect::LoadBranchTree(repo.path.clone()));
                effects.push(Effect::LoadChangedFiles(repo.path.clone()));
                effects.push(Effect::LoadCommitHistory(repo.path.clone()));
                assert(effects@ =~= seq![
                    Effect::RefreshRepo(repo.path),
                    Effect::LoadBranchTree(repo.path),
                    Effect::LoadChangedFiles(repo.path),
                    Effect::LoadCommitHistory(repo.path),
                ]);
                Effect::Batch(effects)
            } else {
                Effect::Nothing
            }
        },
        _ => Effect::Nothing,
    }
}

} // verus!
