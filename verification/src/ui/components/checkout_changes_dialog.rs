//! The dialog shown when a checkout meets uncommitted changes.
use vstd::prelude::*;

use crate::message::AppMessage;
use crate::state::CheckoutChangesDialog;

verus! {

/// The choice made in the dialog.
#[derive(Debug, Clone, Copy, PartialEq, Eq, Structural)]
pub enum CheckoutChangesAction {
    Idle,
    Stash,
    Discard,
    Cancel,
}

/// The kind of branch the dialog names.
pub open spec fn spec_branch_kind(is_remote: bool) -> Seq<char> {
    if is_remote {
        "remote"@
    } else {
        "local"@
    }
}

/// The kind of branch the dialog names: "remote" or "local".
pub fn branch_kind(dialog: &CheckoutChangesDialog) -> (r: &'static str)
    ensures
        r@ == spec_branch_kind(dialog.is_remote),
{
    if dialog.is_remote {
        "remote"
    } else {
        "local"
    }
}

/// Converts the choice to the message it sends: stash or discard, then check out the
/// dialog's branch; cancelling sends nothing.
pub fn action_to_message(action: CheckoutChangesAction, dialog: &CheckoutChangesDialog) -> (r: Option<
    AppMessage,
>)
    ensures
        r == (match action {
            CheckoutChangesAction::Stash => Some(
                AppMessage::CheckoutWithStash {
                    branch_name: dialog.branch_name,
                    is_remote: dialog.is_remote,
                },
            ),
            CheckoutChangesAction::Discard => Some(
                AppMessage::CheckoutWithDiscard {
                    branch_name: dialog.branch_name,
                    is_remote: dialog.is_remote,
                },
            ),
            _ => None,
        }),
{
    match action {
        CheckoutChangesAction::Idle => None,
        CheckoutChangesAction::Stash => Some(
            AppMessage::CheckoutWithStash {
                branch_name: dialog.branch_name.clone(),
                is_remote: dialog.is_remote,
            },
        ),
        CheckoutChangesAction::Discard => Some(
            AppMessage::CheckoutWithDiscard {
                branch_name: dialog.branch_name.clone(),
                is_remote: dialog.is_remote,
            },
        ),
        CheckoutChangesAction::Cancel => None,
    }
}

} // verus!
