//! The welcome view shown when no repository is open.
use vstd::prelude::*;

use crate::message::AppMessage;

verus! {

/// Action to be taken after rendering the welcome view.
#[derive(Debug, Clone)]
pub enum WelcomeViewAction {
    Idle,
    OpenRepo(String),
}

/// Converts a welcome view action to the message it sends: choosing a folder or a
/// recent repository asks to open it.
pub fn action_to_message(action: WelcomeViewAction) -> (r: Option<AppMessage>)
    ensures
        r == (match action {
            WelcomeViewAction::Idle => None,
            WelcomeViewAction::OpenRepo(path) => Some(AppMessage::OpenRepoRequested(path)),
        }),
{
    match action {
        WelcomeViewAction::Idle => None,
        WelcomeViewAction::OpenRepo(path) => Some(AppMessage::OpenRepoRequested(path)),
    }
}

} // verus!
