//! What the changed-files pane promises, stated over the listed files themselves: which
//! files a stage or unstage request acts on, what selecting a file asks for, and which
//! files a Shift-click selects.
use vstd::prelude::*;

use crate::effect::Effect;
use crate::git::WorkingDirFile;
use crate::message::AppMessage;
use crate::reducer::file_handlers::files_of;
use crate::reducer::helpers::file_selection::{
    spec_all_paths, spec_files_to_stage, spec_files_to_unstage, spec_insert_all, spec_listed,
    spec_paths, spec_text_position,
};
use crate::reducer::reduce_step;
use crate::reducer::sections::{spec_toggle, spec_without};
use crate::state::{AppState, ChangedFilesState, RepoState};
use crate::text::texts;

verus! {

/// Whether a file with the path text `p` appears in the list.
pub open spec fn shows_path(files: Seq<WorkingDirFile>, p: Seq<char>) -> bool {
    exists|m: int| 0 <= m < files.len() && (#[trigger] files[m]).path@ == p
}

/// The path texts of the changed-files list in the order it shows them: staged, unstaged,
/// untracked, then conflicted files.
pub open spec fn shown_paths(cf: ChangedFilesState) -> Seq<Seq<char>> {
    (cf.staged@ + cf.unstaged@ + cf.untracked@ + cf.conflicted@).map_values(
        |f: WorkingDirFile| f.path@,
    )
}

proof fn lemma_listed_iff_shown(files: Seq<WorkingDirFile>, p: Seq<char>)
    ensures
        spec_listed(files, p) <==> shows_path(files, p),
{
    let t = texts(spec_paths(files));
    if spec_listed(files, p) {
        let j = choose|j: int| 0 <= j < t.len() && t[j] == p;
        assert(files[j].path@ == p);
    }
    if shows_path(files, p) {
        let m = choose|m: int| 0 <= m < files.len() && (#[trigger] files[m]).path@ == p;
        assert(t[m] == p);
    }
}

/// The paths a request keeps from the selection, filtered by `keep`, are exactly the
/// selected paths that `keep` accepts.
proof fn lemma_kept_selection(sel: Seq<String>, keep: spec_fn(String) -> bool)
    ensures
        (exists|i: int| 0 <= i < sel.len() && keep(#[trigger] sel[i])) <==> sel.filter(keep).len()
            > 0,
        forall|i: int|
            0 <= i < sel.len() && keep(#[trigger] sel[i]) ==> texts(sel.filter(keep)).contains(
                sel[i]@,
            ),
        forall|k: int|
            0 <= k < sel.filter(keep).len() ==> keep(#[trigger] sel.filter(keep)[k]) && texts(
                sel,
            ).contains(sel.filter(keep)[k]@),
{
    let f = sel.filter(keep);
    assert forall|i: int| 0 <= i < sel.len() && keep(#[trigger] sel[i]) implies texts(f).contains(
        sel[i]@,
    ) by {
        sel.lemma_filter_contains(keep, i);
        let j = choose|j: int| 0 <= j < f.len() && f[j] == sel[i];
        assert(texts(f)[j] == sel[i]@);
    }
    assert forall|k: int| 0 <= k < f.len() implies keep(#[trigger] f[k]) && texts(sel).contains(
        f[k]@,
    ) by {
        crate::filters::lemma_filter_contains(sel, keep, k);
        let j = choose|j: int| 0 <= j < sel.len() && sel[j] == f[k];
        assert(texts(sel)[j] == f[k]@);
    }
    if exists|i: int| 0 <= i < sel.len() && keep(#[trigger] sel[i]) {
        let i = choose|i: int| 0 <= i < sel.len() && keep(#[trigger] sel[i]);
        sel.lemma_filter_contains(keep, i);
    }
    if f.len() > 0 {
        crate::filters::lemma_filter_contains(sel, keep, 0);
        let j = choose|j: int| 0 <= j < sel.len() && sel[j] == f[0];
        assert(keep(sel[j]));
    }
}

/// An unstage request for the selection acts on exactly the selected files that are
/// listed as staged; when none is, nothing happens.
pub proof fn lemma_unstage_acts_on_selected_staged_files(
    old: AppState,
    r: RepoState,
    cf: ChangedFilesState,
    new: AppState,
    eff: Effect,
)
    requires
        old.current_repo == Some(r),
        r.changed_files == Some(cf),
        reduce_step(old, AppMessage::UnstageSelectedFilesRequested, new, eff),
    ensures
        (exists|i: int|
            0 <= i < cf.selected_files@.len() && shows_path(
                cf.staged@,
                (#[trigger] cf.selected_files@[i])@,
            )) ==> {
            &&& new == (AppState { loading: true, ..old })
            &&& eff matches Effect::UnstageFiles { repo_path, file_paths }
            &&& repo_path == r.path
            &&& forall|i: int|
                0 <= i < cf.selected_files@.len() && shows_path(
                    cf.staged@,
                    (#[trigger] cf.selected_files@[i])@,
                ) ==> texts(file_paths@).contains(cf.selected_files@[i]@)
            &&& forall|k: int|
                0 <= k < file_paths@.len() ==> shows_path(cf.staged@, (#[trigger] file_paths@[k])@)
                    && texts(cf.selected_files@).contains(file_paths@[k]@)
        },
        !(exists|i: int|
            0 <= i < cf.selected_files@.len() && shows_path(
                cf.staged@,
                (#[trigger] cf.selected_files@[i])@,
            )) ==> new == old && eff == Effect::Nothing,
{
    let sel = cf.selected_files@;
    let keep = |p: String| spec_listed(cf.staged@, p@);
    assert(spec_files_to_unstage(cf) == sel.filter(keep));
    assert forall|p: String| #[trigger] keep(p) <==> shows_path(cf.staged@, p@) by {
        lemma_listed_iff_shown(cf.staged@, p@);
    }
    lemma_kept_selection(sel, keep);
}

/// A stage request for the selection acts on exactly the selected files that are listed
/// as unstaged or untracked; when none is, nothing happens.
pub proof fn lemma_stage_acts_on_selected_unstaged_files(
    old: AppState,
    r: RepoState,
    cf: ChangedFilesState,
    new: AppState,
    eff: Effect,
)
    requires
        old.current_repo == Some(r),
        r.changed_files == Some(cf),
        reduce_step(old, AppMessage::StageSelectedFilesRequested, new, eff),
    ensures
        (exists|i: int|
            0 <= i < cf.selected_files@.len() && (shows_path(
                cf.unstaged@,
                (#[trigger] cf.selected_files@[i])@,
            ) || shows_path(cf.untracked@, cf.selected_files@[i]@))) ==> {
            &&& new == (AppState { loading: true, ..old })
            &&& eff matches Effect::StageFiles { repo_path, file_paths }
            &&& repo_path == r.path
            &&& forall|i: int|
                0 <= i < cf.selected_files@.len() && (shows_path(
                    cf.unstaged@,
                    (#[trigger] cf.selected_files@[i])@,
                ) || shows_path(cf.untracked@, cf.selected_files@[i]@)) ==> texts(
                    file_paths@,
                ).contains(cf.selected_files@[i]@)
            &&& forall|k: int|
                0 <= k < file_paths@.len() ==> (shows_path(
                    cf.unstaged@,
                    (#[trigger] file_paths@[k])@,
                ) || shows_path(cf.untracked@, file_paths@[k]@)) && texts(
                    cf.selected_files@,
                ).contains(file_paths@[k]@)
        },
        !(exists|i: int|
            0 <= i < cf.selected_files@.len() && (shows_path(
                cf.unstaged@,
                (#[trigger] cf.selected_files@[i])@,
            ) || shows_path(cf.untracked@, cf.selected_files@[i]@))) ==> new == old && eff
            == Effect::Nothing,
{
    let sel = cf.selected_files@;
    let keep = |p: String| spec_listed(cf.unstaged@, p@) || spec_listed(cf.untracked@, p@);
    assert(spec_files_to_stage(cf) == sel.filter(keep));
    assert forall|p: String|
        #[trigger] keep(p) <==> (shows_path(cf.unstaged@, p@) || shows_path(cf.untracked@, p@)) by {
        lemma_listed_iff_shown(cf.unstaged@, p@);
        lemma_listed_iff_shown(cf.untracked@, p@);
    }
    lemma_kept_selection(sel, keep);
}

/// In the working-directory view, selecting a file asks for its content when it is
/// listed as untracked, and for its diff otherwise.
pub proof fn lemma_selected_file_asks_for_content_or_diff(
    old: AppState,
    r: RepoState,
    cf: ChangedFilesState,
    path: String,
    new: AppState,
    eff: Effect,
)
    requires
        old.current_repo == Some(r),
        r.selected_commit is None,
        r.changed_files == Some(cf),
        reduce_step(old, AppMessage::ChangedFileSelected(path), new, eff),
    ensures
        shows_path(cf.untracked@, path@) ==> eff == (Effect::LoadFileContent {
            repo_path: r.path,
            file_path: path,
        }),
        !shows_path(cf.untracked@, path@) ==> eff == (Effect::LoadFileDiff {
            repo_path: r.path,
            file_path: path,
        }),
{
    lemma_listed_iff_shown(cf.untracked@, path@);
}

proof fn lemma_shown_paths(cf: ChangedFilesState)
    ensures
        texts(spec_all_paths(cf)) == shown_paths(cf),
{
    let all = cf.staged@ + cf.unstaged@ + cf.untracked@ + cf.conflicted@;
    assert(spec_all_paths(cf) =~= spec_paths(all));
    assert(texts(spec_paths(all)) =~= shown_paths(cf));
}

proof fn lemma_first_position(s: Seq<String>, x: Seq<char>, a: int)
    requires
        0 <= a < s.len(),
        s[a]@ == x,
        forall|m: int| 0 <= m < a ==> (#[trigger] s[m])@ != x,
    ensures
        spec_text_position(s, x) == Some(a),
{
    let c = choose|i: int|
        0 <= i < s.len() && s[i]@ == x && forall|j: int| 0 <= j < i ==> s[j]@ != x;
    assert(0 <= c < s.len() && s[c]@ == x && forall|j: int| 0 <= j < c ==> s[j]@ != x);
    if c < a {
        assert(s[c]@ != x);
    } else if c > a {
        assert(s[a]@ != x);
    }
}

proof fn lemma_push_contains(s: Seq<Seq<char>>, y: Seq<char>, x: Seq<char>)
    ensures
        s.push(y).contains(x) <==> (s.contains(x) || x == y),
{
    if s.push(y).contains(x) {
        let j = choose|j: int| 0 <= j < s.push(y).len() && s.push(y)[j] == x;
        if j < s.len() {
            assert(s[j] == x);
        }
    }
    if s.contains(x) {
        let j = choose|j: int| 0 <= j < s.len() && s[j] == x;
        assert(s.push(y)[j] == x);
    }
    if x == y {
        assert(s.push(y)[s.len() as int] == x);
    }
}

proof fn lemma_insert_all_contains(s: Seq<String>, xs: Seq<String>, x: Seq<char>)
    ensures
        texts(spec_insert_all(s, xs)).contains(x) <==> (texts(s).contains(x) || texts(xs).contains(
            x,
        )),
    decreases xs.len(),
{
    if xs.len() > 0 {
        let init = xs.drop_last();
        let y = xs.last();
        lemma_insert_all_contains(s, init, x);
        let mid = spec_insert_all(s, init);
        assert(texts(mid.push(y)) =~= texts(mid).push(y@));
        assert(texts(xs) =~= texts(init).push(y@));
        lemma_push_contains(texts(mid), y@, x);
        lemma_push_contains(texts(init), y@, x);
    }
}

/// A Shift-click on a path `path`, with the anchor `q` of the last Ctrl-click, both shown
/// in the list, selects every path shown from the anchor to the clicked path, both
/// included and in either direction, and nothing beyond those and what was selected
/// before. A path's position is the first place the list shows it.
pub proof fn lemma_shift_click_selects_range(
    old: AppState,
    r: RepoState,
    cf: ChangedFilesState,
    q: String,
    path: String,
    a: int,
    b: int,
    new: AppState,
    eff: Effect,
)
    requires
        old.current_repo == Some(r),
        r.changed_files == Some(cf),
        cf.last_clicked_file == Some(q),
        0 <= a < shown_paths(cf).len(),
        shown_paths(cf)[a] == q@,
        forall|m: int| 0 <= m < a ==> #[trigger] shown_paths(cf)[m] != q@,
        0 <= b < shown_paths(cf).len(),
        shown_paths(cf)[b] == path@,
        forall|m: int| 0 <= m < b ==> #[trigger] shown_paths(cf)[m] != path@,
        reduce_step(old, AppMessage::SelectFileWithModifiers { path, ctrl: false, shift: true }, new, eff),
    ensures
        files_of(new) matches Some(ncf) && forall|x: Seq<char>|
            #[trigger] texts(ncf.selected_files@).contains(x) <==> (texts(
                cf.selected_files@,
            ).contains(x) || exists|k: int|
                (a <= k <= b || b <= k <= a) && #[trigger] shown_paths(cf)[k] == x),
{
    let s = spec_all_paths(cf);
    lemma_shown_paths(cf);
    assert(s.len() == shown_paths(cf).len());
    assert forall|m: int| 0 <= m < s.len() implies (#[trigger] s[m])@ == shown_paths(cf)[m] by {
        assert(texts(s)[m] == s[m]@);
    }
    lemma_first_position(s, q@, a);
    lemma_first_position(s, path@, b);
    let lo = if a < b { a } else { b };
    let hi = if a < b { b } else { a };
    let sub = s.subrange(lo, hi + 1);
    let ncf = files_of(new)->0;
    assert(ncf.selected_files@ == spec_insert_all(cf.selected_files@, sub));
    assert forall|x: Seq<char>|
        #[trigger] texts(ncf.selected_files@).contains(x) <==> (texts(cf.selected_files@).contains(x)
            || exists|k: int| (a <= k <= b || b <= k <= a) && #[trigger] shown_paths(cf)[k] == x) by {
        lemma_insert_all_contains(cf.selected_files@, sub, x);
        if texts(sub).contains(x) {
            let j = choose|j: int| 0 <= j < texts(sub).len() && texts(sub)[j] == x;
            assert(s[lo + j]@ == x);
            assert(shown_paths(cf)[lo + j] == x);
        }
        if exists|k: int| (a <= k <= b || b <= k <= a) && #[trigger] shown_paths(cf)[k] == x {
            let k = choose|k: int| (a <= k <= b || b <= k <= a) && #[trigger] shown_paths(cf)[k] == x;
            assert(texts(sub)[k - lo] == s[k]@);
        }
    }
}

/// Taking every string with the text `y` out of a list keeps exactly the other texts.
proof fn lemma_without_contains(s: Seq<String>, y: Seq<char>, x: Seq<char>)
    ensures
        texts(spec_without(s, y)).contains(x) <==> (texts(s).contains(x) && x != y),
    decreases s.len(),
{
    reveal(Seq::filter);
    if s.len() == 0 {
        assert(texts(spec_without(s, y)).len() == 0);
    } else {
        let t = s.drop_last();
        let l = s.last();
        lemma_without_contains(t, y, x);
        assert(texts(s) =~= texts(t).push(l@));
        lemma_push_contains(texts(t), l@, x);
        if l@ != y {
            assert(spec_without(s, y) == spec_without(t, y).push(l));
            assert(texts(spec_without(t, y).push(l)) =~= texts(spec_without(t, y)).push(l@));
            lemma_push_contains(texts(spec_without(t, y)), l@, x);
        } else {
            assert(spec_without(s, y) == spec_without(t, y));
        }
    }
}

/// A Ctrl-click on a file toggles it: it becomes selected when it was not and unselected
/// when it was, every other file keeps its state, and the file becomes the anchor of
/// ranges and the file shown.
pub proof fn lemma_ctrl_click_toggles(
    old: AppState,
    r: RepoState,
    cf: ChangedFilesState,
    path: String,
    new: AppState,
    eff: Effect,
)
    requires
        old.current_repo == Some(r),
        r.changed_files == Some(cf),
        reduce_step(old, AppMessage::SelectFileWithModifiers { path, ctrl: true, shift: false }, new, eff),
    ensures
        files_of(new) matches Some(ncf) && ncf.last_clicked_file == Some(path)
            && ncf.selected_file == Some(path) && (texts(ncf.selected_files@).contains(path@)
            <==> !texts(cf.selected_files@).contains(path@)) && forall|x: Seq<char>|
            x != path@ ==> (#[trigger] texts(ncf.selected_files@).contains(x) <==> texts(
                cf.selected_files@,
            ).contains(x)),
{
    let ncf = files_of(new)->0;
    let sel = cf.selected_files@;
    if texts(sel).contains(path@) {
        assert(ncf.selected_files@ == spec_without(sel, path@));
        lemma_without_contains(sel, path@, path@);
        assert forall|x: Seq<char>| x != path@ implies (#[trigger] texts(
            ncf.selected_files@,
        ).contains(x) <==> texts(sel).contains(x)) by {
            lemma_without_contains(sel, path@, x);
        }
    } else {
        assert(ncf.selected_files@ == sel.push(path));
        assert(texts(sel.push(path)) =~= texts(sel).push(path@));
        lemma_push_contains(texts(sel), path@, path@);
        assert forall|x: Seq<char>| x != path@ implies (#[trigger] texts(
            ncf.selected_files@,
        ).contains(x) <==> texts(sel).contains(x)) by {
            lemma_push_contains(texts(sel), path@, x);
        }
    }
}

/// A plain click on a file makes it the only selected file, the file shown and the anchor
/// of ranges.
pub proof fn lemma_plain_click_selects_only_the_file(
    old: AppState,
    r: RepoState,
    cf: ChangedFilesState,
    path: String,
    new: AppState,
    eff: Effect,
)
    requires
        old.current_repo == Some(r),
        r.changed_files == Some(cf),
        reduce_step(old, AppMessage::ChangedFileSelected(path), new, eff),
    ensures
        files_of(new) matches Some(ncf) && texts(ncf.selected_files@) == seq![path@]
            && ncf.selected_file == Some(path) && ncf.last_clicked_file == Some(path),
{
    let ncf = files_of(new)->0;
    assert(texts(ncf.selected_files@) =~= seq![path@]);
}

} // verus!
