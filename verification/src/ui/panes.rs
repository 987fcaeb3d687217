//! The four panes of the main window and their numbering.
use vstd::prelude::*;

pub mod branches;
pub mod changed_files;
pub mod commit_history;

use crate::message::AppMessage;
use crate::state::{RepoState, WORKING_DIR_HASH};

verus! {

/// Represents the four main panes in the application.
#[derive(Clone, Copy, Debug, PartialEq, Eq, Hash, Structural)]
pub enum Pane {
    CommitHistory,
    ChangedFiles,
    DiffViewer,
    Branches,
}

/// The title shown on a pane's tab.
pub open spec fn spec_title(p: Pane) -> Seq<char> {
    match p {
        Pane::CommitHistory => "Commit History"@,
        Pane::ChangedFiles => "Changed Files"@,
        Pane::DiffViewer => "Diff Viewer"@,
        Pane::Branches => "Branches"@,
    }
}

impl Pane {
    pub fn title(&self) -> (r: &'static str)
        ensures
            r@ == spec_title(*self),
    {
        match self {
            Pane::CommitHistory => "Commit History",
            Pane::ChangedFiles => "Changed Files",
            Pane::DiffViewer => "Diff Viewer",
            Pane::Branches => "Branches",
        }
    }
}

/// Number of panes.
pub const PANE_COUNT: usize = 4;

/// The number of a pane for keyboard focus: history 0, branches 1, files 2, diff 3.
pub open spec fn spec_pane_index(p: Pane) -> usize {
    match p {
        Pane::CommitHistory => 0,
        Pane::Branches => 1,
        Pane::ChangedFiles => 2,
        Pane::DiffViewer => 3,
    }
}

/// The pane with a number; numbers past the last pane name the diff viewer.
pub open spec fn spec_pane_from_index(i: usize) -> Pane {
    if i == 0 {
        Pane::CommitHistory
    } else if i == 1 {
        Pane::Branches
    } else if i == 2 {
        Pane::ChangedFiles
    } else {
        Pane::DiffViewer
    }
}

pub fn pane_to_index(pane: Pane) -> (r: usize)
    ensures
        r == spec_pane_index(pane),
        r < PANE_COUNT,
{
    match pane {
        Pane::CommitHistory => 0,
        Pane::Branches => 1,
        Pane::ChangedFiles => 2,
        Pane::DiffViewer => 3,
    }
}

pub fn pane_from_index(index: usize) -> (r: Pane)
    ensures
        r == spec_pane_from_index(index),
{
    match index {
        0 => Pane::CommitHistory,
        1 => Pane::Branches,
        2 => Pane::ChangedFiles,
        _ => Pane::DiffViewer,
    }
}

/// Numbering a pane and taking the pane of that number gives the pane back, and the
/// number of the pane of a valid number is that number.
pub proof fn lemma_pane_index_roundtrip(p: Pane, i: usize)
    ensures
        spec_pane_from_index(spec_pane_index(p)) == p,
        i < PANE_COUNT ==> spec_pane_index(spec_pane_from_index(i)) == i,
{
}

/// The lowest number among the panes (`PANE_COUNT` for none).
pub open spec fn spec_lowest_index(v: Seq<Pane>) -> usize
    decreases v.len(),
{
    if v.len() == 0 {
        PANE_COUNT
    } else {
        let rest = spec_lowest_index(v.drop_last());
        let x = spec_pane_index(v.last());
        if x < rest {
            x
        } else {
            rest
        }
    }
}

/// The numbers of some panes.
pub open spec fn spec_indices(v: Seq<Pane>) -> Seq<usize> {
    v.map_values(|p: Pane| spec_pane_index(p))
}

/// The pane with keyboard focus once the visible panes are known: kept when it is
/// visible, else the lowest-numbered visible pane, or kept when none is visible.
pub open spec fn spec_resolve_active(active: usize, visible: Seq<Pane>) -> usize {
    if spec_indices(visible).contains(active) {
        active
    } else if visible.len() > 0 {
        spec_lowest_index(visible)
    } else {
        active
    }
}

/// Keep the focused pane among the visible ones (the start of `render_dock_layout`).
pub fn resolve_active_pane(active: usize, visible: &Vec<Pane>) -> (r: usize)
    ensures
        r == spec_resolve_active(active, visible@),
{
    let mut found = false;
    let mut lowest: usize = PANE_COUNT;
    let mut k: usize = 0;
    while k < visible.len()
        invariant
            k <= visible@.len(),
            found == spec_indices(visible@.take(k as int)).contains(active),
            lowest == spec_lowest_index(visible@.take(k as int)),
        decreases visible@.len() - k,
    {
        let i = pane_to_index(visible[k]);
        proof {
            let t = visible@.take(k as int);
            assert(visible@.take(k + 1) =~= t.push(visible@[k as int]));
            assert(visible@.take(k + 1).drop_last() =~= t);
            assert(spec_indices(visible@.take(k + 1)) =~= spec_indices(t).push(i));
            if spec_indices(t).contains(active) {
                let j = choose|j: int| 0 <= j < spec_indices(t).len() && spec_indices(t)[j] == active;
                assert(spec_indices(visible@.take(k + 1))[j] == active);
            }
            if i == active {
                assert(spec_indices(visible@.take(k + 1))[k as int] == active);
            }
        }
        if i == active {
            found = true;
        }
        if i < lowest {
            lowest = i;
        }
        k = k + 1;
    }
    assert(visible@.take(visible@.len() as int) =~= visible@);
    if found {
        active
    } else if visible.len() > 0 {
        lowest
    } else {
        active
    }
}

/// How a pane scrolls.
#[derive(Debug, Clone, Copy, PartialEq, Eq, Structural)]
pub enum ScrollMode {
    Vertical,
    Both,
}

/// Scrolling set-up of a pane.
pub struct ScrollablePaneConfig<'a> {
    pub scroll_id: &'a str,
    pub scroll_mode: ScrollMode,
}

impl<'a> ScrollablePaneConfig<'a> {
    /// A pane that scrolls vertically.
    pub fn new(scroll_id: &'a str) -> (r: Self)
        ensures
            r.scroll_id == scroll_id,
            r.scroll_mode == ScrollMode::Vertical,
    {
        Self { scroll_id, scroll_mode: ScrollMode::Vertical }
    }

    /// A pane that scrolls both ways.
    pub fn new_both_scroll(scroll_id: &'a str) -> (r: Self)
        ensures
            r.scroll_id == scroll_id,
            r.scroll_mode == ScrollMode::Both,
    {
        Self { scroll_id, scroll_mode: ScrollMode::Both }
    }
}

/// The panes in order of first appearance, each once.
pub open spec fn spec_distinct_panes(tabs: Seq<Pane>) -> Seq<Pane>
    decreases tabs.len(),
{
    if tabs.len() == 0 {
        tabs
    } else {
        let d = spec_distinct_panes(tabs.drop_last());
        if d.contains(tabs.last()) {
            d
        } else {
            d.push(tabs.last())
        }
    }
}

/// The visible panes, from the tabs of the dock in their order: each pane once, where it
/// first appears.
pub fn visible_panes(tabs: &Vec<Pane>) -> (r: Vec<Pane>)
    ensures
        r@ == spec_distinct_panes(tabs@),
{
    let mut r: Vec<Pane> = Vec::new();
    let mut k: usize = 0;
    while k < tabs.len()
        invariant
            k <= tabs@.len(),
            r@ == spec_distinct_panes(tabs@.take(k as int)),
        decreases tabs@.len() - k,
    {
        proof {
            assert(tabs@.take(k + 1).drop_last() =~= tabs@.take(k as int));
            assert(tabs@.take(k + 1).last() == tabs@[k as int]);
        }
        let p = tabs[k];
        let mut seen = false;
        let mut j: usize = 0;
        while j < r.len()
            invariant
                j <= r@.len(),
                seen == r@.take(j as int).contains(p),
            decreases r@.len() - j,
        {
            proof {
                let t = r@.take(j as int);
                let t1 = r@.take(j + 1);
                assert(t1 =~= t.push(r@[j as int]));
                assert(t1.contains(p) == (t.contains(p) || r@[j as int] == p)) by {
                    if t1.contains(p) {
                        let i = choose|i: int| 0 <= i < t1.len() && t1[i] == p;
                        if i < j {
                            assert(t[i] == p);
                        }
                    }
                    if t.contains(p) {
                        let i = choose|i: int| 0 <= i < t.len() && t[i] == p;
                        assert(t1[i] == p);
                    }
                    if r@[j as int] == p {
                        assert(t1[j as int] == p);
                    }
                }
            }
            if r[j] == p {
                seen = true;
            }
            j = j + 1;
        }
        assert(r@.take(r@.len() as int) =~= r@);
        if !seen {
            r.push(p);
        }
        k = k + 1;
    }
    assert(tabs@.take(tabs@.len() as int) =~= tabs@);
    r
}

/// The loads a repository view asks for when it is shown: the branch tree while none is
/// loaded, then the working directory's changed files while none are loaded.
pub fn loads_to_request(repo: &RepoState) -> (r: Vec<AppMessage>)
    ensures
        ({
            let first: int = if repo.branch_tree is None {
                1
            } else {
                0
            };
            &&& r@.len() == first + if repo.changed_files is None {
                1int
            } else {
                0int
            }
            &&& repo.branch_tree is None ==> r@[0] == AppMessage::LoadBranchTreeRequested
            &&& repo.changed_files is None ==> (r@[first] matches AppMessage::CommitSelected(h)
                && h@ == WORKING_DIR_HASH@)
        }),
{
    let mut r: Vec<AppMessage> = Vec::new();
    if repo.branch_tree.is_none() {
        r.push(AppMessage::LoadBranchTreeRequested);
    }
    if repo.changed_files.is_none() {
        r.push(AppMessage::CommitSelected(WORKING_DIR_HASH.to_owned()));
    }
    r
}

/// What toggling a pane does to the dock.
#[derive(Debug, Clone, Copy, PartialEq, Eq, Structural)]
pub enum TogglePlan {
    /// Keep the current layout for later and take the pane's tab out.
    SaveAndRemove,
    /// Put back the layout kept when the pane was taken out.
    RestoreSaved,
    /// Add the pane's tab to the root of the main surface.
    AddToRoot,
    /// Leave the dock alone (the pane lives in a floating window).
    Leave,
}

/// The plan for toggling a pane: a shown pane of the main surface is taken out, its
/// layout kept; a hidden pane comes back with the layout kept for it, or is added when
/// none was kept.
pub fn toggle_plan(in_main_surface: bool, shown_elsewhere: bool, has_saved_layout: bool) -> (r:
    TogglePlan)
    ensures
        r == (if in_main_surface {
            TogglePlan::SaveAndRemove
        } else if shown_elsewhere {
            TogglePlan::Leave
        } else if has_saved_layout {
            TogglePlan::RestoreSaved
        } else {
            TogglePlan::AddToRoot
        }),
{
    if in_main_surface {
        TogglePlan::SaveAndRemove
    } else if shown_elsewhere {
        TogglePlan::Leave
    } else if has_saved_layout {
        TogglePlan::RestoreSaved
    } else {
        TogglePlan::AddToRoot
    }
}

} // verus!
