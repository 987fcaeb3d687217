//! The panels and dialogs around the panes: what each of their actions asks of the
//! reducer.
pub mod branch_conflict_dialog;
pub mod checkout_changes_dialog;
pub mod error_panel;
pub mod top_panel;
pub mod welcome_view;
