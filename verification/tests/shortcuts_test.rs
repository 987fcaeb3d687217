//! Tests for the default keyboard shortcuts.

use crabontree::ui::shortcuts::{Action, Key, Shortcut};

#[test]
fn test_default_shortcuts() {
    let shortcuts = Shortcut::defaults();
    assert_eq!(shortcuts.len(), 3);

    // Check Ctrl+O for OpenRepo
    assert!(shortcuts
        .iter()
        .any(|s| { s.key == Key::O && s.modifiers.ctrl && s.action == Action::OpenRepo }));
}
