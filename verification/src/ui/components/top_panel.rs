//! The toolbar: open, refresh and close, the pane toggles and the theme menu.
use vstd::prelude::*;

use crate::message::AppMessage;
use crate::ui::panes::Pane;

verus! {

/// Action to be taken after rendering the top panel.
#[derive(Debug, Clone)]
pub enum TopPanelAction {
    Idle,
    OpenRepo(String),
    RefreshRepo,
    CloseRepo,
    TogglePane(Pane),
    SetTheme(String),
}

/// Converts a toolbar action to the message it sends; pane toggles and theme changes are
/// the window's own business and send nothing.
pub fn action_to_message(action: &TopPanelAction) -> (r: Option<AppMessage>)
    ensures
        r == (match *action {
            TopPanelAction::OpenRepo(path) => Some(AppMessage::OpenRepoRequested(path)),
            TopPanelAction::RefreshRepo => Some(AppMessage::RefreshRepo),
            TopPanelAction::CloseRepo => Some(AppMessage::CloseRepo),
            _ => None,
        }),
{
    match action {
        TopPanelAction::Idle => None,
        TopPanelAction::OpenRepo(path) => Some(AppMessage::OpenRepoRequested(path.clone())),
        TopPanelAction::RefreshRepo => Some(AppMessage::RefreshRepo),
        TopPanelAction::CloseRepo => Some(AppMessage::CloseRepo),
        TopPanelAction::TogglePane(_) => None,
        TopPanelAction::SetTheme(_) => None,
    }
}

/// Whether a pane is among the visible ones.
pub fn contains_pane(panes: &Vec<Pane>, pane: Pane) -> (r: bool)
    ensures
        r == panes@.contains(pane),
{
    let mut i: usize = 0;
    while i < panes.len()
        invariant
            i <= panes@.len(),
            forall|j: int| 0 <= j < i ==> panes@[j] != pane,
        decreases panes@.len() - i,
    {
        if panes[i] == pane {
            return true;
        }
        i = i + 1;
    }
    false
}

/// The label of a pane's toggle button: a filled star when the pane is shown, an empty
/// one when it is hidden.
pub open spec fn spec_toggle_label(pane: Pane, visible: bool) -> Seq<char> {
    match pane {
        Pane::CommitHistory => if visible {
            "★ History"@
        } else {
            "☆ History"@
        },
        Pane::Branches => if visible {
            "★ Branches"@
        } else {
            "☆ Branches"@
        },
        Pane::ChangedFiles => if visible {
            "★ Files"@
        } else {
            "☆ Files"@
        },
        Pane::DiffViewer => if visible {
            "★ Diff"@
        } else {
            "☆ Diff"@
        },
    }
}

/// The label of a pane's toggle button, given the visible panes.
pub fn toggle_label(pane: Pane, visible_panes: &Vec<Pane>) -> (r: &'static str)
    ensures
        r@ == spec_toggle_label(pane, visible_panes@.contains(pane)),
{
    let visible = contains_pane(visible_panes, pane);
    match pane {
        Pane::CommitHistory => if visible {
            "★ History"
        } else {
            "☆ History"
        },
        Pane::Branches => if visible {
            "★ Branches"
        } else {
            "☆ Branches"
        },
        Pane::ChangedFiles => if visible {
            "★ Files"
        } else {
            "☆ Files"
        },
        Pane::DiffViewer => if visible {
            "★ Diff"
        } else {
            "☆ Diff"
        },
    }
}

/// The themes offered in the toolbar's menu: identifier and label, in menu order.
pub fn theme_choices() -> (r: Vec<(&'static str, &'static str)>)
    ensures
        r@.len() == 4,
        r@[0].0@ == "dark"@ && r@[0].1@ == "Dark (GitHub)"@,
        r@[1].0@ == "light"@ && r@[1].1@ == "Light (GitHub)"@,
        r@[2].0@ == "jetbrains"@ && r@[2].1@ == "JetBrains Darcula"@,
        r@[3].0@ == "visual_studio"@ && r@[3].1@ == "Visual Studio Dark"@,
{
    vec![
        ("dark", "Dark (GitHub)"),
        ("light", "Light (GitHub)"),
        ("jetbrains", "JetBrains Darcula"),
        ("visual_studio", "Visual Studio Dark"),
    ]
}

} // verus!
