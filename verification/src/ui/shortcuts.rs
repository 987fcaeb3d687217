//! Keyboard shortcuts and actions.
use vstd::prelude::*;

verus! {

/// Keyboard key representation.
#[derive(Debug, Clone, Copy, PartialEq, Eq, Hash, Structural)]
pub enum Key {
    A,
    B,
    C,
    D,
    E,
    F,
    G,
    H,
    I,
    J,
    K,
    L,
    M,
    N,
    O,
    P,
    Q,
    R,
    S,
    T,
    U,
    V,
    W,
    X,
    Y,
    Z,
    Num0,
    Num1,
    Num2,
    Num3,
    Num4,
    Num5,
    Num6,
    Num7,
    Num8,
    Num9,
    F1,
    F2,
    F3,
    F4,
    F5,
    F6,
    F7,
    F8,
    F9,
    F10,
    F11,
    F12,
    Escape,
    Enter,
    Tab,
    Space,
}

/// Keyboard modifiers.
#[derive(Debug, Clone, Copy, PartialEq, Eq, Hash, Structural)]
pub struct Modifiers {
    pub ctrl: bool,
    pub shift: bool,
    pub alt: bool,
    pub command: bool,
}

impl Default for Modifiers {
    fn default() -> (r: Self)
        ensures
            r == (Modifiers { ctrl: false, shift: false, alt: false, command: false }),
    {
        Modifiers { ctrl: false, shift: false, alt: false, command: false }
    }
}

/// Application actions that can be triggered by shortcuts.
#[derive(Debug, Clone, Copy, PartialEq, Eq, Hash, Structural)]
pub enum Action {
    OpenRepo,
    CloseRepo,
    RefreshRepo,
    Quit,
}

/// A keyboard shortcut binding.
#[derive(Debug, Clone, Copy, PartialEq, Eq, Hash, Structural)]
pub struct Shortcut {
    pub key: Key,
    pub modifiers: Modifiers,
    pub action: Action,
}

/// `Ctrl` alone.
pub open spec fn ctrl_only() -> Modifiers {
    Modifiers { ctrl: true, shift: false, alt: false, command: false }
}

impl Shortcut {
    /// Get default shortcuts: Ctrl+O opens, Ctrl+R refreshes, Ctrl+Q quits.
    pub fn defaults() -> (r: Vec<Self>)
        ensures
            r@ == seq![
                Shortcut { key: Key::O, modifiers: ctrl_only(), action: Action::OpenRepo },
                Shortcut { key: Key::R, modifiers: ctrl_only(), action: Action::RefreshRepo },
                Shortcut { key: Key::Q, modifiers: ctrl_only(), action: Action::Quit },
            ],
    {
        let ctrl = Modifiers { ctrl: true, ..Modifiers::default() };
        let mut r: Vec<Shortcut> = Vec::new();
        r.push(Shortcut { key: Key::O, modifiers: ctrl, action: Action::OpenRepo });
        r.push(Shortcut { key: Key::R, modifiers: ctrl, action: Action::RefreshRepo });
        r.push(Shortcut { key: Key::Q, modifiers: ctrl, action: Action::Quit });
        assert(r@ =~= seq![
            Shortcut { key: Key::O, modifiers: ctrl_only(), action: Action::OpenRepo },
            Shortcut { key: Key::R, modifiers: ctrl_only(), action: Action::RefreshRepo },
            Shortcut { key: Key::Q, modifiers: ctrl_only(), action: Action::Quit },
        ]);
        r
    }
}

} // verus!
