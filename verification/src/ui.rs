//! The user-interface logic that does not draw: shortcuts, panes, keyboard navigation,
//! the actions of the panels and what they ask of the reducer, and colour codes.
pub mod color;
pub mod components;
pub mod keyboard;
pub mod panes;
pub mod shortcuts;
pub mod theme;
pub mod widgets;
