//! Which selected files a request acts on, and whether a loaded result still matches
//! the selection.
use vstd::prelude::*;

use crate::git::WorkingDirFile;
use crate::filters::lemma_filter_push;
use crate::reducer::sections::{insert_text, spec_insert, spec_toggle, toggle_text};
use crate::state::ChangedFilesState;
use crate::text::{contains_text, str_eq, texts};

verus! {

/// The paths of a list of files.
pub open spec fn spec_paths(files: Seq<WorkingDirFile>) -> Seq<String> {
    files.map_values(|f: WorkingDirFile| f.path)
}

/// Whether a file with the path text `p` is in the list.
pub open spec fn spec_listed(files: Seq<WorkingDirFile>, p: Seq<char>) -> bool {
    texts(spec_paths(files)).contains(p)
}

/// Whether a file with the path text of `p` is in the list.
pub fn is_listed(files: &Vec<WorkingDirFile>, p: &str) -> (r: bool)
    ensures
        r == spec_listed(files@, p@),
{
    let mut i: usize = 0;
    while i < files.len()
        invariant
            i <= files@.len(),
            forall|j: int| 0 <= j < i ==> files@[j].path@ != p@,
        decreases files@.len() - i,
    {
        if str_eq(files[i].path.as_str(), p) {
            assert(texts(spec_paths(files@))[i as int] == p@);
            return true;
        }
        i = i + 1;
    }
    assert(!spec_listed(files@, p@)) by {
        if spec_listed(files@, p@) {
            let j = choose|j: int|
                0 <= j < texts(spec_paths(files@)).len() && texts(spec_paths(files@))[j] == p@;
            assert(files@[j].path@ == p@);
        }
    }
    false
}

/// The selected paths that can be staged: those listed as unstaged or untracked.
pub open spec fn spec_files_to_stage(files: ChangedFilesState) -> Seq<String> {
    files.selected_files@.filter(
        |p: String| spec_listed(files.unstaged@, p@) || spec_listed(files.untracked@, p@),
    )
}

/// The selected paths that can be unstaged: those listed as staged.
pub open spec fn spec_files_to_unstage(files: ChangedFilesState) -> Seq<String> {
    files.selected_files@.filter(|p: String| spec_listed(files.staged@, p@))
}

pub fn collect_files_to_stage(files: &ChangedFilesState) -> (r: Vec<String>)
    ensures
        r@ == spec_files_to_stage(*files),
{
    let ghost pred = |p: String| spec_listed(files.unstaged@, p@) || spec_listed(files.untracked@, p@);
    let sel = &files.selected_files;
    let mut r: Vec<String> = Vec::new();
    let mut i: usize = 0;
    while i < sel.len()
        invariant
            i <= sel@.len(),
            r@ == sel@.take(i as int).filter(pred),
            pred == (|p: String|
                spec_listed(files.unstaged@, p@) || spec_listed(files.untracked@, p@)),
        decreases sel@.len() - i,
    {
        proof {
            assert(sel@.take(i + 1) =~= sel@.take(i as int).push(sel@[i as int]));
            lemma_filter_push(sel@.take(i as int), pred, sel@[i as int]);
        }
        let p = &sel[i];
        if is_listed(&files.unstaged, p.as_str()) || is_listed(&files.untracked, p.as_str()) {
            r.push(p.clone());
        }
        i = i + 1;
    }
    assert(sel@.take(sel@.len() as int) =~= sel@);
    r
}

pub fn collect_files_to_unstage(files: &ChangedFilesState) -> (r: Vec<String>)
    ensures
        r@ == spec_files_to_unstage(*files),
{
    let ghost pred = |p: String| spec_listed(files.staged@, p@);
    let sel = &files.selected_files;
    let mut r: Vec<String> = Vec::new();
    let mut i: usize = 0;
    while i < sel.len()
        invariant
            i <= sel@.len(),
            r@ == sel@.take(i as int).filter(pred),
            pred == (|p: String| spec_listed(files.staged@, p@)),
        decreases sel@.len() - i,
    {
        proof {
            assert(sel@.take(i + 1) =~= sel@.take(i as int).push(sel@[i as int]));
            lemma_filter_push(sel@.take(i as int), pred, sel@[i as int]);
        }
        let p = &sel[i];
        if is_listed(&files.staged, p.as_str()) {
            r.push(p.clone());
        }
        i = i + 1;
    }
    assert(sel@.take(sel@.len() as int) =~= sel@);
    r
}

/// A result for one file still applies when that file is the single selected one.
pub open spec fn spec_single_applies(changed_files: Option<ChangedFilesState>, path: Seq<char>) -> bool {
    match changed_files {
        Some(files) => {
            &&& files.selected_files@.len() == 1
            &&& files.selected_file matches Some(s) && s@ == path
            &&& texts(files.selected_files@).contains(path)
        },
        None => false,
    }
}

/// A result for several files still applies when more than one file is selected and
/// the selected files are exactly the files of the result.
pub open spec fn spec_multi_applies(
    changed_files: Option<ChangedFilesState>,
    paths: Seq<String>,
) -> bool {
    match changed_files {
        Some(files) => {
            &&& files.selected_files@.len() > 1
            &&& texts(files.selected_files@).to_set() == texts(paths).to_set()
        },
        None => false,
    }
}

/// Whether every text of `a` is a text of `b`.
fn all_listed(a: &Vec<String>, b: &Vec<String>) -> (r: bool)
    ensures
        r == (forall|i: int| 0 <= i < a@.len() ==> texts(b@).contains(#[trigger] a@[i]@)),
{
    let mut i: usize = 0;
    while i < a.len()
        invariant
            i <= a@.len(),
            forall|j: int| 0 <= j < i ==> texts(b@).contains(#[trigger] a@[j]@),
        decreases a@.len() - i,
    {
        if !contains_text(b, a[i].as_str()) {
            return false;
        }
        i = i + 1;
    }
    true
}

pub fn should_apply_single_file_result(
    changed_files: Option<&ChangedFilesState>,
    path: &str,
) -> (r: bool)
    ensures
        r == spec_single_applies(
            match changed_files {
                Some(f) => Some(*f),
                None => None,
            },
            path@,
        ),
{
    let files = match changed_files {
        Some(f) => f,
        None => {
            return false;
        },
    };
    let selected_matches = match &files.selected_file {
        Some(s) => str_eq(s.as_str(), path),
        None => false,
    };
    files.selected_files.len() == 1 && selected_matches && contains_text(&files.selected_files, path)
}

pub fn should_apply_multi_file_result(
    changed_files: Option<&ChangedFilesState>,
    selected_paths: &Vec<String>,
) -> (r: bool)
    ensures
        r == spec_multi_applies(
            match changed_files {
                Some(f) => Some(*f),
                None => None,
            },
            selected_paths@,
        ),
{
    let files = match changed_files {
        Some(f) => f,
        None => {
            return false;
        },
    };
    if files.selected_files.len() <= 1 {
        return false;
    }
    let forward = all_listed(&files.selected_files, selected_paths);
    let backward = all_listed(selected_paths, &files.selected_files);
    proof {
        let s = texts(files.selected_files@);
        let t = texts(selected_paths@);
        if forward && backward {
            assert forall|x: Seq<char>| s.to_set().contains(x) <==> t.to_set().contains(x) by {
                if s.contains(x) {
                    let i = choose|i: int| 0 <= i < s.len() && s[i] == x;
                    assert(t.contains(files.selected_files@[i]@));
                }
                if t.contains(x) {
                    let i = choose|i: int| 0 <= i < t.len() && t[i] == x;
                    assert(s.contains(selected_paths@[i]@));
                }
            }
            assert(s.to_set() =~= t.to_set());
        } else if !forward {
            let i = choose|i: int|
                0 <= i < files.selected_files@.len() && !t.contains(
                    #[trigger] files.selected_files@[i]@,
                );
            assert(s.to_set().contains(s[i]));
            assert(!t.to_set().contains(s[i]));
        } else {
            let i = choose|i: int|
                0 <= i < selected_paths@.len() && !s.contains(#[trigger] selected_paths@[i]@);
            assert(t.to_set().contains(t[i]));
            assert(!s.to_set().contains(t[i]));
        }
    }
    forward && backward
}

/// Every path shown in the changed-files list, in list order: staged, unstaged,
/// untracked, conflicted.
pub open spec fn spec_all_paths(files: ChangedFilesState) -> Seq<String> {
    spec_paths(files.staged@) + spec_paths(files.unstaged@) + spec_paths(files.untracked@)
        + spec_paths(files.conflicted@)
}

/// Position of the first string with the text `x`.
pub open spec fn spec_text_position(s: Seq<String>, x: Seq<char>) -> Option<int> {
    if exists|i: int| 0 <= i < s.len() && s[i]@ == x {
        Some(
            choose|i: int|
                0 <= i < s.len() && s[i]@ == x && forall|j: int| 0 <= j < i ==> s[j]@ != x,
        )
    } else {
        None
    }
}

/// The names of `xs` added one after the other to `s`, each unless already listed.
pub open spec fn spec_insert_all(s: Seq<String>, xs: Seq<String>) -> Seq<String>
    decreases xs.len(),
{
    if xs.len() == 0 {
        s
    } else {
        spec_insert(spec_insert_all(s, xs.drop_last()), xs.last())
    }
}

/// The selection extended with every path listed between the last clicked path and
/// `path`, both included; unchanged when either is not listed or nothing was clicked.
pub open spec fn spec_range_selection(files: ChangedFilesState, path: String) -> Seq<String> {
    match spec_range_bounds(files, path) {
        Some((lo, hi)) => spec_insert_all(
            files.selected_files@,
            spec_all_paths(files).subrange(lo, hi + 1),
        ),
        None => files.selected_files@,
    }
}

/// The selected paths after a click on `path` with the given modifiers: with Ctrl the
/// path is toggled; with Shift every path listed between the last clicked path and
/// this one (both included) is added; with neither the selection stays.
pub open spec fn spec_selection_after_click(
    files: ChangedFilesState,
    path: String,
    ctrl: bool,
    shift: bool,
) -> Seq<String> {
    let sel = files.selected_files@;
    if ctrl {
        spec_toggle(sel, path)
    } else if shift {
        spec_range_selection(files, path)
    } else {
        sel
    }
}

/// The changed-files state after a click with modifiers: the selection as
/// `spec_selection_after_click` says, the clicked path becomes the selected file when a
/// modifier is held, and the anchor for ranges moves to it on a Ctrl-click.
pub open spec fn is_after_click(
    new: ChangedFilesState,
    old: ChangedFilesState,
    path: String,
    ctrl: bool,
    shift: bool,
) -> bool {
    &&& new.selected_files@ == spec_selection_after_click(old, path, ctrl, shift)
    &&& new == ChangedFilesState {
        selected_files: new.selected_files,
        selected_file: if ctrl || shift {
            Some(path)
        } else {
            old.selected_file
        },
        last_clicked_file: if ctrl {
            Some(path)
        } else {
            old.last_clicked_file
        },
        ..old
    }
}

fn push_paths(all: &mut Vec<String>, files: &Vec<WorkingDirFile>)
    ensures
        final(all)@ == old(all)@ + spec_paths(files@),
{
    let mut i: usize = 0;
    while i < files.len()
        invariant
            i <= files@.len(),
            all@ == old(all)@ + spec_paths(files@.take(i as int)),
        decreases files@.len() - i,
    {
        all.push(files[i].path.clone());
        assert(spec_paths(files@.take(i + 1)) =~= spec_paths(files@.take(i as int)).push(
            files@[i as int].path,
        ));
        i = i + 1;
    }
    assert(files@.take(files@.len() as int) =~= files@);
}

/// Every path of the changed-files list, in list order.
pub fn all_paths(files: &ChangedFilesState) -> (r: Vec<String>)
    ensures
        r@ == spec_all_paths(*files),
{
    let mut all: Vec<String> = Vec::new();
    push_paths(&mut all, &files.staged);
    push_paths(&mut all, &files.unstaged);
    push_paths(&mut all, &files.untracked);
    push_paths(&mut all, &files.conflicted);
    assert(all@ =~= spec_all_paths(*files));
    all
}

/// Position of the first string with the text `x`.
pub fn text_position(list: &Vec<String>, x: &str) -> (r: Option<usize>)
    ensures
        match r {
            Some(i) => i < list@.len() && spec_text_position(list@, x@) == Some(i as int),
            None => spec_text_position(list@, x@) is None,
        },
{
    let mut i: usize = 0;
    while i < list.len()
        invariant
            i <= list@.len(),
            forall|j: int| 0 <= j < i ==> list@[j]@ != x@,
        decreases list@.len() - i,
    {
        if str_eq(list[i].as_str(), x) {
            proof {
                let k = choose|k: int|
                    0 <= k < list@.len() && list@[k]@ == x@ && forall|j: int|
                        0 <= j < k ==> list@[j]@ != x@;
                assert(k == i) by {
                    if k > i {
                        assert(list@[i as int]@ != x@);
                    }
                }
            }
            return Some(i);
        }
        i = i + 1;
    }
    None
}

proof fn lemma_insert_all_no_dup(s: Seq<String>, xs: Seq<String>)
    requires
        texts(s).no_duplicates(),
    ensures
        texts(spec_insert_all(s, xs)).no_duplicates(),
    decreases xs.len(),
{
    if xs.len() > 0 {
        lemma_insert_all_no_dup(s, xs.drop_last());
        let t = spec_insert_all(s, xs.drop_last());
        if !texts(t).contains(xs.last()@) {
            crate::reducer::sections::lemma_push_no_dup(t, xs.last());
        }
    }
}

/// The bounds of the range a Shift-click selects: the positions of the last clicked
/// path and of `path` in the list, smaller first.
pub open spec fn spec_range_bounds(files: ChangedFilesState, path: String) -> Option<(int, int)> {
    match files.last_clicked_file {
        Some(last) => {
            let all = spec_all_paths(files);
            match (spec_text_position(all, last@), spec_text_position(all, path@)) {
                (Some(a), Some(b)) => Some(
                    if a < b {
                        (a, b)
                    } else {
                        (b, a)
                    },
                ),
                _ => None,
            }
        },
        None => None,
    }
}

fn range_bounds(files: &ChangedFilesState, path: &String) -> (r: Option<(Vec<String>, usize, usize)>)
    ensures
        match spec_range_bounds(*files, *path) {
            Some((lo, hi)) => r matches Some((all, l, h)) && all@ == spec_all_paths(*files) && l
                == lo && h == hi && hi < all@.len(),
            None => r is None,
        },
{
    match &files.last_clicked_file {
        Some(last_clicked) => {
            let all = all_paths(files);
            let last_idx = text_position(&all, last_clicked.as_str());
            let current_idx = text_position(&all, path.as_str());
            match (last_idx, current_idx) {
                (Some(a), Some(b)) => {
                    if a < b {
                        Some((all, a, b))
                    } else {
                        Some((all, b, a))
                    }
                },
                _ => None,
            }
        },
        None => None,
    }
}

fn insert_range(sel: &mut Vec<String>, all: &Vec<String>, lo: usize, hi: usize)
    requires
        lo <= hi < all@.len(),
        texts(old(sel)@).no_duplicates(),
    ensures
        final(sel)@ == spec_insert_all(old(sel)@, all@.subrange(lo as int, hi + 1)),
        texts(final(sel)@).no_duplicates(),
{
    let ghost start = sel@;
    let mut k: usize = lo;
    assert(all@.subrange(lo as int, lo as int) =~= Seq::<String>::empty());
    while k <= hi
        invariant
            lo <= k <= hi + 1,
            hi < all.len(),
            sel@ == spec_insert_all(start, all@.subrange(lo as int, k as int)),
            texts(sel@).no_duplicates(),
        decreases hi + 1 - k,
    {
        assert(all@.subrange(lo as int, k + 1).drop_last() =~= all@.subrange(lo as int, k as int));
        assert(all@.subrange(lo as int, k + 1).last() == all@[k as int]);
        insert_text(sel, all[k].clone());
        k = k + 1;
    }
}

/// Add to the selection every path listed between the last clicked path and `path`.
fn extend_range_selection(files: &mut ChangedFilesState, path: &String)
    requires
        old(files).wf(),
    ensures
        final(files).selected_files@ == spec_range_selection(*old(files), *path),
        *final(files) == (ChangedFilesState { selected_files: final(files).selected_files, ..*old(files) }),
        final(files).wf(),
{
    if let Some((all, lo, hi)) = range_bounds(files, path) {
        insert_range(&mut files.selected_files, &all, lo, hi);
    }
}

/// Apply a click with modifiers on `path` to the selection of the changed-files list.
pub fn select_with_modifiers(files: &mut ChangedFilesState, path: String, ctrl: bool, shift: bool)
    requires
        old(files).wf(),
    ensures
        is_after_click(*final(files), *old(files), path, ctrl, shift),
        final(files).wf(),
{
    if ctrl {
        toggle_text(&mut files.selected_files, path.clone());
        files.last_clicked_file = Some(path.clone());
        files.selected_file = Some(path);
    } else if shift {
        extend_range_selection(files, &path);
        files.selected_file = Some(path);
    }
}

} // verus!
