//! The dialog shown when a remote branch's local name is taken.
use vstd::prelude::*;

use crate::message::AppMessage;
use crate::state::BranchConflictDialog;

verus! {

/// The choice made in the dialog.
#[derive(Debug, Clone)]
pub enum BranchConflictAction {
    Idle,
    Override,
    Rename(String),
    Cancel,
}

/// What the "Create with new name" button does: rename to the typed name, or nothing
/// while the name is empty.
pub fn rename_action(dialog: &BranchConflictDialog) -> (r: BranchConflictAction)
    ensures
        dialog.new_name_input@.len() == 0 ==> r is Idle,
        dialog.new_name_input@.len() != 0 ==> r == BranchConflictAction::Rename(dialog.new_name_input),
{
    if dialog.new_name_input.as_str().is_empty() {
        BranchConflictAction::Idle
    } else {
        BranchConflictAction::Rename(dialog.new_name_input.clone())
    }
}

/// Converts the choice to the message it sends: override the local branch of the
/// dialog's name, or check out under the new name; cancelling sends nothing.
pub fn action_to_message(action: BranchConflictAction, dialog: &BranchConflictDialog) -> (r: Option<
    AppMessage,
>)
    ensures
        r == (match action {
            BranchConflictAction::Override => Some(
                AppMessage::CheckoutRemoteOverride {
                    remote_branch: dialog.remote_branch,
                    local_name: dialog.local_name,
                },
            ),
            BranchConflictAction::Rename(new_name) => Some(
                AppMessage::CheckoutRemoteRename {
                    remote_branch: dialog.remote_branch,
                    new_local_name: new_name,
                },
            ),
            _ => None,
        }),
{
    match action {
        BranchConflictAction::Idle => None,
        BranchConflictAction::Override => Some(
            AppMessage::CheckoutRemoteOverride {
                remote_branch: dialog.remote_branch.clone(),
                local_name: dialog.local_name.clone(),
            },
        ),
        BranchConflictAction::Rename(new_name) => Some(
            AppMessage::CheckoutRemoteRename {
                remote_branch: dialog.remote_branch.clone(),
                new_local_name: new_name,
            },
        ),
        BranchConflictAction::Cancel => None,
    }
}

} // verus!
