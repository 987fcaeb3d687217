//! The dismissible error banner.
use vstd::prelude::*;

use crate::message::AppMessage;

verus! {

/// Action to be taken after rendering the error panel.
#[derive(Debug, Clone, Copy, PartialEq, Eq, Structural)]
pub enum ErrorPanelAction {
    Idle,
    ClearError,
}

/// Converts an error panel action to the message it sends: dismissing the banner
/// clears the error.
pub fn action_to_message(action: ErrorPanelAction) -> (r: Option<AppMessage>)
    ensures
        r == (match action {
            ErrorPanelAction::Idle => None,
            ErrorPanelAction::ClearError => Some(AppMessage::ClearError),
        }),
{
    match action {
        ErrorPanelAction::Idle => None,
        ErrorPanelAction::ClearError => Some(AppMessage::ClearError),
    }
}

} // verus!
