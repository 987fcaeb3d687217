//! The commit history pane: what a click on a row or the load button asks for.
use vstd::prelude::*;

use crate::message::AppMessage;
use crate::state::WORKING_DIR_HASH;

verus! {

/// Action to be taken after rendering the commit history.
#[derive(Debug, Clone)]
pub enum CommitHistoryAction {
    Idle,
    LoadHistory,
    SelectCommit(String),
    DeselectCommit,
}

/// A click on a row: deselects the row's commit when it is selected, selects it
/// otherwise.
pub fn row_click_action(hash: &str, is_selected: bool) -> (r: CommitHistoryAction)
    ensures
        is_selected ==> r is DeselectCommit,
        !is_selected ==> (r matches CommitHistoryAction::SelectCommit(h) && h@ == hash@),
{
    if is_selected {
        CommitHistoryAction::DeselectCommit
    } else {
        CommitHistoryAction::SelectCommit(hash.to_owned())
    }
}

/// Whether the row of `hash` is the selected one.
pub fn is_selected_row(selected_commit: Option<&String>, hash: &str) -> (r: bool)
    ensures
        r == (match selected_commit {
            Some(s) => s@ == hash@,
            None => false,
        }),
{
    match selected_commit {
        Some(s) => crate::text::str_eq(s.as_str(), hash),
        None => false,
    }
}

/// A click on the working directory's row, which stands for the pseudo hash.
pub fn working_dir_click_action(selected_commit: Option<&String>) -> (r: CommitHistoryAction)
    ensures
        (match selected_commit {
            Some(s) => s@ == WORKING_DIR_HASH@,
            None => false,
        }) ==> r is DeselectCommit,
        !(match selected_commit {
            Some(s) => s@ == WORKING_DIR_HASH@,
            None => false,
        }) ==> (r matches CommitHistoryAction::SelectCommit(h) && h@ == WORKING_DIR_HASH@),
{
    let is_selected = is_selected_row(selected_commit, WORKING_DIR_HASH);
    row_click_action(WORKING_DIR_HASH, is_selected)
}

/// The label of the working directory's row, with a star when it has changes.
pub fn working_dir_label(has_working_dir_changes: bool) -> (r: &'static str)
    ensures
        has_working_dir_changes ==> r@ == "0000000 - Working Directory *"@,
        !has_working_dir_changes ==> r@ == "0000000 - Working Directory"@,
{
    if has_working_dir_changes {
        "0000000 - Working Directory *"
    } else {
        "0000000 - Working Directory"
    }
}

/// Converts a commit history action to the message it sends.
pub fn action_to_message(action: CommitHistoryAction) -> (r: Option<AppMessage>)
    ensures
        r == (match action {
            CommitHistoryAction::Idle => None,
            CommitHistoryAction::LoadHistory => Some(AppMessage::LoadCommitHistoryRequested),
            CommitHistoryAction::SelectCommit(hash) => Some(AppMessage::CommitSelected(hash)),
            CommitHistoryAction::DeselectCommit => Some(AppMessage::CommitDeselected),
        }),
{
    match action {
        CommitHistoryAction::Idle => None,
        CommitHistoryAction::LoadHistory => Some(AppMessage::LoadCommitHistoryRequested),
        CommitHistoryAction::SelectCommit(hash) => Some(AppMessage::CommitSelected(hash)),
        CommitHistoryAction::DeselectCommit => Some(AppMessage::CommitDeselected),
    }
}

} // verus!
