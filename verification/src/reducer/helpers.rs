//! Pure helpers of the reducer.
pub mod commit_view;
pub mod file_selection;
