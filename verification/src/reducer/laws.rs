//! What the reducer promises over several messages: toggles undone, stale diffs ignored,
//! errors cleared and drafts restored.
use vstd::prelude::*;

use crate::config::{lemma_remove_then_find, lemma_store_then_find, spec_find_draft, CommitDraft};
use crate::effect::Effect;
use crate::git::DiffHunk;
use crate::message::AppMessage;
use crate::reducer::file_handlers::files_of;
use crate::reducer::helpers::file_selection::spec_single_applies;
use crate::reducer::reduce_step;
use crate::reducer::sections::lemma_toggle_twice;
use crate::state::{AppState, ChangedFilesState};
use crate::text::texts;

verus! {

/// Toggling the same branch section twice leaves the same sections expanded, and
/// changes nothing when no branch tree is loaded.
pub proof fn lemma_section_toggled_twice(
    s0: AppState,
    section: String,
    s1: AppState,
    e1: Effect,
    s2: AppState,
    e2: Effect,
)
    requires
        s0.wf(),
        reduce_step(s0, AppMessage::BranchSectionToggled(section), s1, e1),
        reduce_step(s1, AppMessage::BranchSectionToggled(section), s2, e2),
    ensures
        e1 == Effect::Nothing && e2 == Effect::Nothing,
        match s0.current_repo {
            Some(r) => match r.branch_tree {
                Some(t) => s2.current_repo matches Some(r2) && r2.branch_tree matches Some(t2)
                    && texts(t2.expanded_sections@).to_set() == texts(t.expanded_sections@).to_set(),
                None => s2 == s0,
            },
            None => s2 == s0,
        },
{
    if let Some(r) = s0.current_repo {
        if let Some(t) = r.branch_tree {
            lemma_toggle_twice(t.expanded_sections@, section);
        }
    }
}

/// A loaded diff for a file that is no longer the single selected one is ignored: only
/// the loading flag is cleared.
pub proof fn lemma_stale_diff_result_ignored(
    old: AppState,
    path: String,
    hunks: Vec<DiffHunk>,
    new: AppState,
    eff: Effect,
)
    requires
        reduce_step(old, AppMessage::FileDiffLoaded { path, hunks }, new, eff),
        !spec_single_applies(files_of(old), path@),
    ensures
        new == (AppState { loading: false, ..old }),
        eff == Effect::Nothing,
{
}

/// An error shown and then dismissed leaves no error; loading and committing stay off.
pub proof fn lemma_error_then_clear(
    s0: AppState,
    err: String,
    s1: AppState,
    e1: Effect,
    s2: AppState,
    e2: Effect,
)
    requires
        reduce_step(s0, AppMessage::Error(err), s1, e1),
        reduce_step(s1, AppMessage::ClearError, s2, e2),
    ensures
        s1.error == Some(err),
        s2 == (AppState { loading: false, committing: false, error: None, ..s0 }),
        e1 == Effect::Nothing && e2 == Effect::Nothing,
{
}

/// Ctrl-clicking the same file twice leaves the same files selected.
pub proof fn lemma_ctrl_click_twice(
    s0: AppState,
    path: String,
    s1: AppState,
    e1: Effect,
    s2: AppState,
    e2: Effect,
)
    requires
        s0.wf(),
        reduce_step(s0, AppMessage::SelectFileWithModifiers { path, ctrl: true, shift: false }, s1, e1),
        reduce_step(s1, AppMessage::SelectFileWithModifiers { path, ctrl: true, shift: false }, s2, e2),
    ensures
        match files_of(s0) {
            Some(c0) => files_of(s2) matches Some(c2) && texts(c2.selected_files@).to_set() == texts(
                c0.selected_files@,
            ).to_set(),
            None => s2 == s0,
        },
{
    if let Some(c0) = files_of(s0) {
        lemma_toggle_twice(c0.selected_files@, path);
    }
}

/// What the window saves of the commit panel when it closes comes back when the
/// repository is opened again: a freshly loaded working-directory list of the same
/// repository, with no list before it, shows the saved summary and description.
pub proof fn lemma_saved_draft_restored(
    s0: AppState,
    s1: AppState,
    loaded: ChangedFilesState,
    s2: AppState,
    e2: Effect,
)
    requires
        s0.current_repo matches Some(r0) && r0.changed_files matches Some(c0) && !c0.is_commit_view,
        s1.config.commit_drafts@ == s0.spec_saved_drafts(),
        s1.current_repo matches Some(r1) && r1.changed_files is None && r1.path@
            == s0.current_repo->0.path@,
        !loaded.is_commit_view,
        loaded.commit_summary@.len() == 0,
        loaded.commit_description@.len() == 0,
        reduce_step(s1, AppMessage::ChangedFilesLoaded(loaded), s2, e2),
    ensures
        s2.current_repo matches Some(r2) && r2.changed_files matches Some(c2)
            && c2.commit_summary@ == s0.current_repo->0.changed_files->0.commit_summary@
            && c2.commit_description@ == s0.current_repo->0.changed_files->0.commit_description@,
{
    let r0 = s0.current_repo->0;
    let c0 = r0.changed_files->0;
    let drafts = s0.config.commit_drafts@;
    let d = CommitDraft { summary: c0.commit_summary, description: c0.commit_description };
    lemma_store_then_find(drafts, r0.path, d, r0.path@);
    lemma_remove_then_find(drafts, r0.path@, r0.path@);
    assert(spec_find_draft(s1.config.commit_drafts@, s1.current_repo->0.path@) == if c0.commit_summary@.len()
        == 0 && c0.commit_description@.len() == 0 {
        None
    } else {
        Some(d)
    });
}

} // verus!
