//! Keyboard handling: pane navigation, shortcuts and moving the selection.
use vstd::prelude::*;

use crate::git::Commit;
use crate::message::AppMessage;
use crate::reducer::helpers::file_selection::{
    all_paths, spec_all_paths, spec_text_position, text_position,
};
use crate::text::texts;
use crate::state::{RepoState, WORKING_DIR_HASH};
use crate::ui::panes::PANE_COUNT;

verus! {

/// Pane number of the commit history.
pub const PANE_COMMIT_HISTORY: usize = 0;

/// Pane number of the branches.
pub const PANE_BRANCHES: usize = 1;

/// Pane number of the changed files.
pub const PANE_CHANGED_FILES: usize = 2;

/// Keyboard action to be taken.
#[derive(Debug)]
pub enum KeyboardAction {
    Idle,
    SetActivePane,
    RefreshRepo,
    ToggleHelp,
    SelectCommit(String),
    SelectFile(String),
}

/// The keys pressed in one frame, and whether a text field has the keyboard.
#[derive(Debug, Clone, Copy, Default)]
pub struct KeyPresses {
    pub text_focused: bool,
    pub num1: bool,
    pub num2: bool,
    pub num3: bool,
    pub num4: bool,
    pub tab: bool,
    pub shift: bool,
    pub ctrl: bool,
    pub arrow_right: bool,
    pub arrow_left: bool,
    pub arrow_down: bool,
    pub arrow_up: bool,
    pub r: bool,
    pub question_mark: bool,
    pub slash: bool,
}

/// Position of the first entry equal to `x`.
pub open spec fn spec_first_position(s: Seq<Seq<char>>, x: Seq<char>) -> Option<int> {
    if exists|i: int| 0 <= i < s.len() && s[i] == x {
        Some(choose|i: int| 0 <= i < s.len() && s[i] == x && forall|j: int| 0 <= j < i ==> s[j] != x)
    } else {
        None
    }
}

/// The text of an optional string.
pub open spec fn opt_text(o: Option<String>) -> Option<Seq<char>> {
    match o {
        Some(s) => Some(s@),
        None => None,
    }
}

/// The entry after (`forward`) or before the current one, staying at the ends; the
/// first (forward) or last entry when nothing or an unlisted entry is current; nothing
/// for an empty list.
pub open spec fn spec_step_selection(items: Seq<Seq<char>>, current: Option<Seq<char>>, forward: bool) -> Option<
    Seq<char>,
> {
    if items.len() == 0 {
        None
    } else {
        let idx = match current {
            Some(c) => spec_first_position(items, c),
            None => None,
        };
        let next = match idx {
            Some(i) => if forward {
                if i + 1 < items.len() {
                    i + 1
                } else {
                    items.len() - 1
                }
            } else {
                if i > 0 {
                    i - 1
                } else {
                    0
                }
            },
            None => if forward {
                0
            } else {
                items.len() - 1
            },
        };
        Some(items[next])
    }
}

proof fn lemma_first_position_texts(s: Seq<String>, x: Seq<char>)
    ensures
        spec_text_position(s, x) == spec_first_position(texts(s), x),
{
    let t = texts(s);
    if exists|i: int| 0 <= i < s.len() && s[i]@ == x {
        let w = choose|i: int| 0 <= i < s.len() && s[i]@ == x;
        assert(t[w] == s[w]@);
        lemma_first_exists(t, x, w);
        let k2 = choose|i: int|
            0 <= i < t.len() && t[i] == x && forall|j: int| 0 <= j < i ==> t[j] != x;
        assert(t[k2] == s[k2]@);
        assert forall|j: int| 0 <= j < k2 implies s[j]@ != x by {
            assert(t[j] == s[j]@);
        }
        let k1 = choose|i: int|
            0 <= i < s.len() && s[i]@ == x && forall|j: int| 0 <= j < i ==> s[j]@ != x;
        assert(k1 == k2) by {
            assert(t[k1] == s[k1]@);
            if k1 < k2 {
                assert(t[k1] != x);
            } else if k2 < k1 {
                assert(s[k2]@ != x);
            }
        }
    } else {
        assert forall|i: int| 0 <= i < t.len() implies t[i] != x by {
            assert(t[i] == s[i]@);
        }
    }
}

proof fn lemma_first_exists(t: Seq<Seq<char>>, x: Seq<char>, w: int)
    requires
        0 <= w < t.len(),
        t[w] == x,
    ensures
        exists|i: int| 0 <= i < t.len() && t[i] == x && forall|j: int| 0 <= j < i ==> t[j] != x,
    decreases w,
{
    if exists|j: int| 0 <= j < w && t[j] == x {
        let j = choose|j: int| 0 <= j < w && t[j] == x;
        lemma_first_exists(t, x, j);
    }
}

/// Moves the selection one entry forward or back in `items`.
pub fn step_selection(items: &Vec<String>, current: Option<&String>, forward: bool) -> (r: Option<
    String,
>)
    ensures
        opt_text(r) == spec_step_selection(
            texts(items@),
            match current {
                Some(c) => Some(c@),
                None => None,
            },
            forward,
        ),
{
    if items.len() == 0 {
        return None;
    }
    let idx = match current {
        Some(c) => {
            proof {
                lemma_first_position_texts(items@, c@);
            }
            text_position(items, c.as_str())
        },
        None => None,
    };
    let next_idx = match idx {
        Some(i) => {
            if forward {
                if i + 1 < items.len() {
                    i + 1
                } else {
                    items.len() - 1
                }
            } else {
                if i > 0 {
                    i - 1
                } else {
                    0
                }
            }
        },
        None => {
            if forward {
                0
            } else {
                items.len() - 1
            }
        },
    };
    let r = items[next_idx].clone();
    assert(texts(items@)[next_idx as int] == items@[next_idx as int]@);
    Some(r)
}

/// The entries of the commit list: the working directory first, then the commits.
pub open spec fn spec_commit_entries(commits: Seq<Commit>) -> Seq<Seq<char>> {
    seq![WORKING_DIR_HASH@] + commits.map_values(|c: Commit| c.hash@)
}

fn commit_entries(repo: &RepoState) -> (r: Vec<String>)
    ensures
        texts(r@) == spec_commit_entries(repo.commits@),
{
    let mut r: Vec<String> = Vec::new();
    r.push(WORKING_DIR_HASH.to_owned());
    let mut i: usize = 0;
    while i < repo.commits.len()
        invariant
            i <= repo.commits@.len(),
            r@.len() == i + 1,
            r@[0]@ == WORKING_DIR_HASH@,
            forall|j: int| 1 <= j < r@.len() ==> #[trigger] r@[j] == repo.commits@[j - 1].hash,
        decreases repo.commits@.len() - i,
    {
        r.push(repo.commits[i].hash.clone());
        i = i + 1;
    }
    assert(texts(r@) =~= spec_commit_entries(repo.commits@));
    r
}

/// The commit to select after the selected one (`forward`) or before it, in the commit
/// list with the working directory first.
pub open spec fn spec_next_commit(repo: RepoState, forward: bool) -> Option<Seq<char>> {
    spec_step_selection(spec_commit_entries(repo.commits@), opt_text(repo.selected_commit), forward)
}

/// The file to select after the selected one (`forward`) or before it, over the
/// changed files in list order; nothing without a changed-files list.
pub open spec fn spec_next_file(repo: RepoState, forward: bool) -> Option<Seq<char>> {
    match repo.changed_files {
        Some(files) => spec_step_selection(
            texts(spec_all_paths(files)),
            opt_text(files.selected_file),
            forward,
        ),
        None => None,
    }
}

fn next_commit(repo: &RepoState, forward: bool) -> (r: Option<String>)
    ensures
        opt_text(r) == spec_next_commit(*repo, forward),
{
    let commits = commit_entries(repo);
    step_selection(&commits, repo.selected_commit.as_ref(), forward)
}

fn next_file(repo: &RepoState, forward: bool) -> (r: Option<String>)
    ensures
        opt_text(r) == spec_next_file(*repo, forward),
{
    let files = match &repo.changed_files {
        Some(f) => f,
        None => {
            return None;
        },
    };
    let paths = all_paths(files);
    step_selection(&paths, files.selected_file.as_ref(), forward)
}

/// What the arrow keys select in a pane: the next or previous commit in the commit
/// history, the next or previous file in the changed files, nothing elsewhere.
pub open spec fn is_navigation(r: Option<KeyboardAction>, pane: usize, repo: RepoState, forward: bool) -> bool {
    if pane == PANE_COMMIT_HISTORY {
        match spec_next_commit(repo, forward) {
            Some(t) => r matches Some(KeyboardAction::SelectCommit(h)) && h@ == t,
            None => r is None,
        }
    } else if pane == PANE_CHANGED_FILES {
        match spec_next_file(repo, forward) {
            Some(t) => r matches Some(KeyboardAction::SelectFile(p)) && p@ == t,
            None => r is None,
        }
    } else {
        r is None
    }
}

fn navigate(current_pane: usize, repo: &RepoState, forward: bool) -> (r: Option<KeyboardAction>)
    ensures
        is_navigation(r, current_pane, *repo, forward),
{
    if current_pane == PANE_COMMIT_HISTORY {
        match next_commit(repo, forward) {
            Some(h) => Some(KeyboardAction::SelectCommit(h)),
            None => None,
        }
    } else if current_pane == PANE_CHANGED_FILES {
        match next_file(repo, forward) {
            Some(p) => Some(KeyboardAction::SelectFile(p)),
            None => None,
        }
    } else {
        None
    }
}

fn navigate_down(current_pane: usize, repo: &RepoState) -> (r: Option<KeyboardAction>)
    ensures
        is_navigation(r, current_pane, *repo, true),
{
    navigate(current_pane, repo, true)
}

fn navigate_up(current_pane: usize, repo: &RepoState) -> (r: Option<KeyboardAction>)
    ensures
        is_navigation(r, current_pane, *repo, false),
{
    navigate(current_pane, repo, false)
}

/// The pane after `pane`, wrapping round.
pub open spec fn spec_pane_after(pane: int) -> int {
    (pane + 1) % (PANE_COUNT as int)
}

/// The pane before `pane`, wrapping round.
pub open spec fn spec_pane_before(pane: int) -> int {
    if pane == 0 {
        PANE_COUNT - 1
    } else {
        pane - 1
    }
}

/// The pane a key chooses, in order of priority: the number keys 1 to 4, Tab, Shift+Tab,
/// the right and left arrows; `None` when none of them was pressed.
pub open spec fn spec_pane_key(keys: KeyPresses, pane: int) -> Option<int> {
    if keys.num1 {
        Some(0)
    } else if keys.num2 {
        Some(1)
    } else if keys.num3 {
        Some(2)
    } else if keys.num4 {
        Some(3)
    } else if keys.tab && !keys.shift {
        Some(spec_pane_after(pane))
    } else if keys.tab && keys.shift {
        Some(spec_pane_before(pane))
    } else if keys.arrow_right {
        Some(spec_pane_after(pane))
    } else if keys.arrow_left {
        Some(spec_pane_before(pane))
    } else {
        None
    }
}

/// What a frame's keys do, in order of priority: nothing while a text field has the
/// keyboard; choose a pane; with a repository open, move the selection of the active
/// pane with the down and up arrows; refresh with `r` (without Ctrl); toggle the help
/// with `?` or Shift+`/`.
pub open spec fn is_shortcut_outcome(
    r: (KeyboardAction, usize),
    keys: KeyPresses,
    pane: usize,
    repo: Option<RepoState>,
) -> bool {
    if keys.text_focused {
        r.0 is Idle && r.1 == pane
    } else if spec_pane_key(keys, pane as int) is Some {
        r.0 is SetActivePane && r.1 == spec_pane_key(keys, pane as int)->0
    } else if repo is Some && (keys.arrow_down || keys.arrow_up) {
        r.1 == pane && is_navigation_action(r.0, pane, repo->0, keys.arrow_down)
    } else if keys.r && !keys.ctrl {
        r.0 is RefreshRepo && r.1 == pane
    } else if keys.question_mark || (keys.slash && keys.shift) {
        r.0 is ToggleHelp && r.1 == pane
    } else {
        r.0 is Idle && r.1 == pane
    }
}

/// The action the arrow keys give in a pane: what they select, or nothing.
pub open spec fn is_navigation_action(a: KeyboardAction, pane: usize, repo: RepoState, forward: bool) -> bool {
    if pane == PANE_COMMIT_HISTORY {
        match spec_next_commit(repo, forward) {
            Some(t) => a matches KeyboardAction::SelectCommit(h) && h@ == t,
            None => a is Idle,
        }
    } else if pane == PANE_CHANGED_FILES {
        match spec_next_file(repo, forward) {
            Some(t) => a matches KeyboardAction::SelectFile(p) && p@ == t,
            None => a is Idle,
        }
    } else {
        a is Idle
    }
}

fn pane_after(pane: usize) -> (r: usize)
    ensures
        r == spec_pane_after(pane as int),
{
    (pane % PANE_COUNT + 1) % PANE_COUNT
}

fn pane_before(pane: usize) -> (r: usize)
    ensures
        r == spec_pane_before(pane as int),
{
    if pane == 0 {
        PANE_COUNT - 1
    } else {
        pane - 1
    }
}

/// Handles the keyboard shortcuts of one frame: returns the action and the new active
/// pane.
pub fn handle_shortcuts(keys: &KeyPresses, current_pane: usize, repo: Option<&RepoState>) -> (r: (
    KeyboardAction,
    usize,
))
    ensures
        is_shortcut_outcome(
            r,
            *keys,
            current_pane,
            match repo {
                Some(s) => Some(*s),
                None => None,
            },
        ),
{
    if keys.text_focused {
        return (KeyboardAction::Idle, current_pane);
    }
    if keys.num1 {
        return (KeyboardAction::SetActivePane, 0);
    }
    if keys.num2 {
        return (KeyboardAction::SetActivePane, 1);
    }
    if keys.num3 {
        return (KeyboardAction::SetActivePane, 2);
    }
    if keys.num4 {
        return (KeyboardAction::SetActivePane, 3);
    }
    if keys.tab && !keys.shift {
        return (KeyboardAction::SetActivePane, pane_after(current_pane));
    }
    if keys.tab && keys.shift {
        return (KeyboardAction::SetActivePane, pane_before(current_pane));
    }
    if keys.arrow_right {
        return (KeyboardAction::SetActivePane, pane_after(current_pane));
    }
    if keys.arrow_left {
        return (KeyboardAction::SetActivePane, pane_before(current_pane));
    }
    if let Some(repo) = repo {
        if keys.arrow_down {
            let n = navigate_down(current_pane, repo);
            return match n {
                Some(action) => (action, current_pane),
                None => (KeyboardAction::Idle, current_pane),
            };
        }
        if keys.arrow_up {
            let n = navigate_up(current_pane, repo);
            return match n {
                Some(action) => (action, current_pane),
                None => (KeyboardAction::Idle, current_pane),
            };
        }
    }
    if keys.r && !keys.ctrl {
        return (KeyboardAction::RefreshRepo, current_pane);
    }
    if keys.question_mark || (keys.slash && keys.shift) {
        return (KeyboardAction::ToggleHelp, current_pane);
    }
    (KeyboardAction::Idle, current_pane)
}

/// The message an action asks of the reducer: a refresh, or the selection of a commit or
/// a file; pane changes and the help are the window's own business.
pub open spec fn spec_keyboard_message(action: KeyboardAction) -> Option<AppMessage> {
    match action {
        KeyboardAction::RefreshRepo => Some(AppMessage::RefreshRepo),
        KeyboardAction::SelectCommit(hash) => Some(AppMessage::CommitSelected(hash)),
        KeyboardAction::SelectFile(path) => Some(AppMessage::ChangedFileSelected(path)),
        _ => None,
    }
}

/// Converts a keyboard action to the message it sends.
pub fn action_to_message(action: KeyboardAction) -> (r: Option<AppMessage>)
    ensures
        r == spec_keyboard_message(action),
{
    match action {
        KeyboardAction::Idle | KeyboardAction::SetActivePane => None,
        KeyboardAction::RefreshRepo => Some(AppMessage::RefreshRepo),
        KeyboardAction::ToggleHelp => None,
        KeyboardAction::SelectCommit(hash) => Some(AppMessage::CommitSelected(hash)),
        KeyboardAction::SelectFile(path) => Some(AppMessage::ChangedFileSelected(path)),
    }
}

/// Tab then Shift+Tab (or the right then the left arrow) come back to the pane they
/// started from, and four Tabs go round all the panes.
pub proof fn lemma_pane_cycle(pane: int)
    requires
        0 <= pane < PANE_COUNT,
    ensures
        spec_pane_before(spec_pane_after(pane)) == pane,
        spec_pane_after(spec_pane_before(pane)) == pane,
        spec_pane_after(spec_pane_after(spec_pane_after(spec_pane_after(pane)))) == pane,
        0 <= spec_pane_after(pane) < PANE_COUNT,
        0 <= spec_pane_before(pane) < PANE_COUNT,
{
}

/// Pressing Tab and then Shift+Tab, with no text field focused and no number key held,
/// makes the starting pane active again.
pub proof fn lemma_tab_then_shift_tab(
    tab: KeyPresses,
    shift_tab: KeyPresses,
    pane: usize,
    repo: Option<RepoState>,
    r1: (KeyboardAction, usize),
    r2: (KeyboardAction, usize),
)
    requires
        pane < PANE_COUNT,
        tab.tab && !tab.shift && !tab.text_focused,
        !tab.num1 && !tab.num2 && !tab.num3 && !tab.num4,
        shift_tab.tab && shift_tab.shift && !shift_tab.text_focused,
        !shift_tab.num1 && !shift_tab.num2 && !shift_tab.num3 && !shift_tab.num4,
        is_shortcut_outcome(r1, tab, pane, repo),
        is_shortcut_outcome(r2, shift_tab, r1.1, repo),
    ensures
        r1.0 is SetActivePane && r2.0 is SetActivePane,
        r2.1 == pane,
{
    lemma_pane_cycle(pane as int);
}

proof fn lemma_first_position_distinct(s: Seq<Seq<char>>, i: int)
    requires
        s.no_duplicates(),
        0 <= i < s.len(),
    ensures
        spec_first_position(s, s[i]) == Some(i),
{
    let k = choose|k: int| 0 <= k < s.len() && s[k] == s[i] && forall|j: int| 0 <= j < k ==> s[j] != s[i];
    assert(0 <= i < s.len() && s[i] == s[i] && forall|j: int| 0 <= j < i ==> s[j] != s[i]);
}

/// In a list where no entry occurs twice, moving the selection down and then up (or up
/// and then down) comes back to the entry it started from, unless the first move was
/// stopped by the end of the list.
pub proof fn lemma_step_down_then_up(items: Seq<Seq<char>>, i: int)
    requires
        items.no_duplicates(),
        0 <= i < items.len(),
    ensures
        i + 1 < items.len() ==> spec_step_selection(items, Some(items[i]), true) == Some(items[i + 1])
            && spec_step_selection(items, Some(items[i + 1]), false) == Some(items[i]),
        i > 0 ==> spec_step_selection(items, Some(items[i]), false) == Some(items[i - 1])
            && spec_step_selection(items, Some(items[i - 1]), true) == Some(items[i]),
        i + 1 == items.len() ==> spec_step_selection(items, Some(items[i]), true) == Some(items[i]),
        i == 0 ==> spec_step_selection(items, Some(items[i]), false) == Some(items[i]),
{
    lemma_first_position_distinct(items, i);
    if i + 1 < items.len() {
        lemma_first_position_distinct(items, i + 1);
    }
    if i > 0 {
        lemma_first_position_distinct(items, i - 1);
    }
}

} // verus!
