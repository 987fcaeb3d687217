//! CrabOnTree's application core: the state of the Git GUI and the reducer that updates
//! it, the effects and background jobs it asks for, the model of the repository data it
//! shows, and the decisions of the user interface (keyboard, panes, panels, colours).
//! Everything here is verified, but for the three `std::path` calls of `paths`, whose
//! contracts are taken on trust; the window, the git calls and the files live in the
//! program around it.
use vstd::prelude::*;

pub mod config;
pub mod effect;
pub mod filters;
pub mod git;
pub mod job;
pub mod message;
pub mod order;
pub mod outcomes;
pub mod paths;
pub mod reducer;
pub mod state;
pub mod text;
pub mod ui;

verus! {

} // verus!
