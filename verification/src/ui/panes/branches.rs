//! The branches pane: what a click, a double click or the Enter key asks for.
use vstd::prelude::*;

use crate::message::AppMessage;
use crate::state::{BranchInfo, BranchTreeState};
use crate::text::{concat_str, contains_char, str_eq};

verus! {

/// Action to be taken after rendering the branches pane.
#[derive(Debug, Clone)]
pub enum BranchesAction {
    Idle,
    SelectBranch { name: String, is_remote: bool },
    CheckoutBranch { name: String, is_remote: bool },
}

/// What the Enter key does on the selected branch: check it out, as a remote branch
/// when its name holds a `/`; nothing when no branch is selected or the selected one is
/// the current local branch.
pub open spec fn is_enter_action(r: BranchesAction, tree: BranchTreeState) -> bool {
    match tree.selected_branch {
        Some(s) => {
            let is_remote = s@.contains('/');
            if !is_remote && s@ == tree.current_branch@ {
                r is Idle
            } else {
                r == BranchesAction::CheckoutBranch { name: s, is_remote }
            }
        },
        None => r is Idle,
    }
}

/// The action of the Enter key in the branches pane.
pub fn enter_key_action(tree: &BranchTreeState) -> (r: BranchesAction)
    ensures
        is_enter_action(r, *tree),
{
    match &tree.selected_branch {
        Some(selected) => {
            let is_remote = contains_char(selected.as_str(), '/');
            let is_current = !is_remote && str_eq(selected.as_str(), tree.current_branch.as_str());
            if !is_current {
                BranchesAction::CheckoutBranch { name: selected.clone(), is_remote }
            } else {
                BranchesAction::Idle
            }
        },
        None => BranchesAction::Idle,
    }
}

/// What a frame's clicks on a local branch's row ask for: a double click checks the
/// branch out unless it is the current one, a click selects it; `Idle` leaves the pane's
/// action as it was.
pub fn local_row_action(branch: &BranchInfo, current_branch: &str, clicked: bool, double_clicked: bool) -> (r:
    BranchesAction)
    ensures
        ({
            let is_current = branch.is_current || branch.name@ == current_branch@;
            if double_clicked && !is_current {
                r == BranchesAction::CheckoutBranch { name: branch.name, is_remote: false }
            } else if clicked {
                r == BranchesAction::SelectBranch { name: branch.name, is_remote: false }
            } else {
                r is Idle
            }
        }),
{
    let is_current = branch.is_current || str_eq(branch.name.as_str(), current_branch);
    if double_clicked && !is_current {
        BranchesAction::CheckoutBranch { name: branch.name.clone(), is_remote: false }
    } else if clicked {
        BranchesAction::SelectBranch { name: branch.name.clone(), is_remote: false }
    } else {
        BranchesAction::Idle
    }
}

/// The full name of a remote branch: the remote, a `/`, the branch.
pub fn remote_full_name(remote: &str, branch: &str) -> (r: String)
    ensures
        r@ == remote@ + seq!['/'] + branch@,
{
    let with_slash = concat_str(remote, "/");
    proof {
        reveal_strlit("/");
    }
    concat_str(with_slash.as_str(), branch)
}

/// What a frame's clicks on a remote branch's row ask for: a double click checks out the
/// remote branch under its full name, a click selects it; `Idle` leaves the pane's action
/// as it was.
pub fn remote_row_action(remote: &str, branch: &BranchInfo, clicked: bool, double_clicked: bool) -> (r:
    BranchesAction)
    ensures
        double_clicked ==> (r matches BranchesAction::CheckoutBranch { name, is_remote } && is_remote
            && name@ == remote@ + seq!['/'] + branch.name@),
        !double_clicked && clicked ==> (r matches BranchesAction::SelectBranch { name, is_remote }
            && is_remote && name@ == remote@ + seq!['/'] + branch.name@),
        !double_clicked && !clicked ==> r is Idle,
{
    if double_clicked {
        BranchesAction::CheckoutBranch {
            name: remote_full_name(remote, branch.name.as_str()),
            is_remote: true,
        }
    } else if clicked {
        BranchesAction::SelectBranch {
            name: remote_full_name(remote, branch.name.as_str()),
            is_remote: true,
        }
    } else {
        BranchesAction::Idle
    }
}

/// The number of remote branches, over all remotes.
pub open spec fn spec_remote_count(remotes: Seq<(String, Vec<BranchInfo>)>) -> nat
    decreases remotes.len(),
{
    if remotes.len() == 0 {
        0
    } else {
        spec_remote_count(remotes.drop_last()) + remotes.last().1@.len()
    }
}

/// The number of branches the pane shows: the local ones and those of every remote.
pub fn branch_count(tree: &BranchTreeState) -> (r: usize)
    requires
        tree.local_branches@.len() + spec_remote_count(tree.remote_branches@) <= usize::MAX,
    ensures
        r == tree.local_branches@.len() + spec_remote_count(tree.remote_branches@),
{
    let mut total: usize = tree.local_branches.len();
    let mut i: usize = 0;
    while i < tree.remote_branches.len()
        invariant
            i <= tree.remote_branches@.len(),
            total == tree.local_branches@.len() + spec_remote_count(
                tree.remote_branches@.take(i as int),
            ),
            tree.local_branches@.len() + spec_remote_count(tree.remote_branches@) <= usize::MAX,
        decreases tree.remote_branches@.len() - i,
    {
        proof {
            let s = tree.remote_branches@;
            assert(s.take(i + 1).drop_last() =~= s.take(i as int));
            lemma_remote_count_prefix(s, i + 1);
        }
        total = total + tree.remote_branches[i].1.len();
        i = i + 1;
    }
    assert(tree.remote_branches@.take(i as int) =~= tree.remote_branches@);
    total
}

proof fn lemma_remote_count_prefix(s: Seq<(String, Vec<BranchInfo>)>, k: int)
    requires
        0 <= k <= s.len(),
    ensures
        spec_remote_count(s.take(k)) <= spec_remote_count(s),
    decreases s.len(),
{
    if k < s.len() {
        assert(s.drop_last().take(k) =~= s.take(k));
        lemma_remote_count_prefix(s.drop_last(), k);
    } else {
        assert(s.take(k) =~= s);
    }
}

/// Whether the branch named `name` is the selected one.
pub fn is_selected_branch(selected: Option<&String>, name: &str) -> (r: bool)
    ensures
        r == (match selected {
            Some(s) => s@ == name@,
            None => false,
        }),
{
    match selected {
        Some(s) => str_eq(s.as_str(), name),
        None => false,
    }
}

/// Converts a branches action to the message it sends.
pub fn action_to_message(action: BranchesAction) -> (r: Option<AppMessage>)
    ensures
        r == (match action {
            BranchesAction::Idle => None,
            BranchesAction::SelectBranch { name, is_remote } => Some(
                AppMessage::BranchSelected { name, is_remote },
            ),
            BranchesAction::CheckoutBranch { name, is_remote } => Some(
                AppMessage::BranchCheckoutRequested { name, is_remote },
            ),
        }),
{
    match action {
        BranchesAction::Idle => None,
        BranchesAction::SelectBranch { name, is_remote } => Some(
            AppMessage::BranchSelected { name, is_remote },
        ),
        BranchesAction::CheckoutBranch { name, is_remote } => Some(
            AppMessage::BranchCheckoutRequested { name, is_remote },
        ),
    }
}

} // verus!
