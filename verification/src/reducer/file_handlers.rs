//! The changed-files list, file selection, staging of the selection and the file viewer.
use vstd::prelude::*;

use crate::config::{find_draft, spec_find_draft};
use crate::effect::Effect;
use crate::git::{copy_hunks, hunks_view, DiffHunk, DiffHunkView, FileDiff};
use crate::message::AppMessage;
use crate::paths::{join_path, parent_path, path_join, path_parent};
use crate::reducer::commit_handlers::update_repo;
use crate::reducer::helpers::file_selection::{
    collect_files_to_stage, collect_files_to_unstage, is_after_click, is_listed,
    select_with_modifiers, should_apply_single_file_result,
    spec_files_to_stage, spec_files_to_unstage, spec_listed,
    spec_single_applies,
};
use crate::filters::lemma_filter_push;
use crate::state::{
    is_working_dir_hash, AppState, ChangedFilesState, DiffViewMode, FileViewState, RepoState,
    WORKING_DIR_HASH,
};
use crate::text::{str_eq, texts};

verus! {

/// The first file of a commit diff with the path text `p`.
pub open spec fn spec_find_file_diff(d: Seq<FileDiff>, p: Seq<char>) -> Option<FileDiff>
    decreases d.len(),
{
    if d.len() == 0 {
        None
    } else if d[0].path@ == p {
        Some(d[0])
    } else {
        spec_find_file_diff(d.drop_first(), p)
    }
}

fn find_file_diff(d: &Vec<FileDiff>, p: &str) -> (r: Option<usize>)
    ensures
        match r {
            Some(i) => i < d@.len() && spec_find_file_diff(d@, p@) == Some(d@[i as int]),
            None => spec_find_file_diff(d@, p@) is None,
        },
{
    let mut i: usize = 0;
    assert(d@.skip(0) =~= d@);
    while i < d.len()
        invariant
            i <= d@.len(),
            spec_find_file_diff(d@, p@) == spec_find_file_diff(d@.skip(i as int), p@),
        decreases d@.len() - i,
    {
        assert(d@.skip(i as int).drop_first() =~= d@.skip(i + 1));
        if str_eq(d[i].path.as_str(), p) {
            return Some(i);
        }
        i = i + 1;
    }
    None
}

/// Whether a commit other than the working directory is being viewed.
pub open spec fn is_viewing_commit(r: RepoState) -> bool {
    r.selected_commit matches Some(h) && h@ != WORKING_DIR_HASH@
}

/// The file viewer shows the unified diff of `path` with (a copy of) `hunks`.
pub open spec fn shows_diff(v: FileViewState, path: String, hunks: Seq<DiffHunk>) -> bool {
    v matches FileViewState::Diff { path: p, hunks: h, view_mode } && p == path && hunks_view(h@)
        == hunks_view(hunks) && view_mode == DiffViewMode::Unified
}

/// Several file diffs seen as plain values.
pub open spec fn pairs_view(files: Seq<(String, Vec<DiffHunk>)>) -> Seq<(String, Seq<DiffHunkView>)> {
    files.map_values(|e: (String, Vec<DiffHunk>)| (e.0, hunks_view(e.1@)))
}

/// The diffs of the selected files of a commit, in diff order.
pub open spec fn spec_selected_diffs(d: Seq<FileDiff>, selected: Seq<String>) -> Seq<
    (String, Seq<DiffHunkView>),
> {
    d.filter(|fd: FileDiff| texts(selected).contains(fd.path@)).map_values(
        |fd: FileDiff| (fd.path, hunks_view(fd.hunks@)),
    )
}

fn selected_diffs(d: &Vec<FileDiff>, selected: &Vec<String>) -> (r: Vec<(String, Vec<DiffHunk>)>)
    ensures
        pairs_view(r@) == spec_selected_diffs(d@, selected@),
{
    let ghost p = |fd: FileDiff| texts(selected@).contains(fd.path@);
    let ghost f = |fd: FileDiff| (fd.path, hunks_view(fd.hunks@));
    let mut r: Vec<(String, Vec<DiffHunk>)> = Vec::new();
    let mut i: usize = 0;
    while i < d.len()
        invariant
            i <= d@.len(),
            pairs_view(r@) == d@.take(i as int).filter(p).map_values(f),
            p == (|fd: FileDiff| texts(selected@).contains(fd.path@)),
            f == (|fd: FileDiff| (fd.path, hunks_view(fd.hunks@))),
        decreases d@.len() - i,
    {
        proof {
            assert(d@.take(i + 1) =~= d@.take(i as int).push(d@[i as int]));
            lemma_filter_push(d@.take(i as int), p, d@[i as int]);
        }
        let fd = &d[i];
        if crate::text::contains_text(selected, fd.path.as_str()) {
            let hunks = copy_hunks(&fd.hunks);
            let ghost before = r@;
            r.push((fd.path.clone(), hunks));
            assert(pairs_view(r@) =~= pairs_view(before).push((fd.path, hunks_view(fd.hunks@))));
            assert(d@.take(i as int).filter(p).push(d@[i as int]).map_values(f) =~= d@.take(
                i as int,
            ).filter(p).map_values(f).push(f(d@[i as int])));
        }
        i = i + 1;
    }
    assert(d@.take(d@.len() as int) =~= d@);
    r
}

fn copy_texts(v: &Vec<String>) -> (r: Vec<String>)
    ensures
        r@ == v@,
{
    let mut r: Vec<String> = Vec::new();
    let mut i: usize = 0;
    while i < v.len()
        invariant
            i <= v@.len(),
            r@ == v@.take(i as int),
        decreases v@.len() - i,
    {
        r.push(v[i].clone());
        assert(v@.take(i + 1) =~= v@.take(i as int).push(v@[i as int]));
        i = i + 1;
    }
    assert(v@.take(v@.len() as int) =~= v@);
    r
}

/// The changed-files state a fresh load becomes: the commit panel of the state it
/// replaces is kept; with no earlier state, a working-directory view takes the saved
/// draft of the repository, if any.
pub open spec fn spec_loaded_files(
    loaded: ChangedFilesState,
    previous: Option<ChangedFilesState>,
    draft: Option<crate::config::CommitDraft>,
) -> ChangedFilesState {
    match previous {
        Some(o) => ChangedFilesState {
            commit_summary: o.commit_summary,
            commit_description: o.commit_description,
            amend_last_commit: o.amend_last_commit,
            push_after_commit: o.push_after_commit,
            ..loaded
        },
        None => if loaded.is_commit_view {
            loaded
        } else {
            match draft {
                Some(d) => ChangedFilesState {
                    commit_summary: d.summary,
                    commit_description: d.description,
                    ..loaded
                },
                None => loaded,
            }
        },
    }
}

/// The file viewer with its diff view mode set, when it shows diffs.
pub open spec fn spec_with_view_mode(v: FileViewState, mode: DiffViewMode) -> FileViewState {
    match v {
        FileViewState::Diff { path, hunks, .. } => FileViewState::Diff { path, hunks, view_mode: mode },
        FileViewState::MultipleDiffs { files, .. } => FileViewState::MultipleDiffs {
            files,
            view_mode: mode,
        },
        other => other,
    }
}

/// The repository's changed-files state when there is one.
pub open spec fn files_of(old: AppState) -> Option<ChangedFilesState> {
    match old.current_repo {
        Some(r) => r.changed_files,
        None => None,
    }
}

/// A loaded single-file result: `loading` off, and the viewer set to `view` when the file
/// is still the single selected one.
pub open spec fn single_result(old: AppState, new: AppState, path: Seq<char>, view: FileViewState) -> bool {
    new == AppState {
        loading: false,
        current_repo: if spec_single_applies(files_of(old), path) {
            update_repo(old.current_repo, |r: RepoState| RepoState { file_view: view, ..r })
        } else {
            old.current_repo
        },
        ..old
    }
}

/// A loaded result shown as it comes: `loading` off, and the viewer of the open
/// repository, if any, set to `view`.
pub open spec fn shown_result(old: AppState, new: AppState, view: FileViewState) -> bool {
    new == AppState {
        loading: false,
        current_repo: update_repo(old.current_repo, |r: RepoState| RepoState { file_view: view, ..r }),
        ..old
    }
}

/// After a plain click on `path`, it is the one selected file and the range anchor.
pub open spec fn is_single_selection(
    cf: Option<ChangedFilesState>,
    ncf: Option<ChangedFilesState>,
    path: String,
) -> bool {
    match cf {
        Some(c) => ncf matches Some(n) && n.selected_files@ == seq![path] && n == ChangedFilesState {
            selected_file: Some(path),
            selected_files: n.selected_files,
            last_clicked_file: Some(path),
            ..c
        },
        None => ncf is None,
    }
}

/// The rest of a plain click on `path`: in a commit view the viewer shows the file's
/// diff from the commit (when the commit's diff has that file); in the working
/// directory the file's content (untracked files) or diff is requested.
pub open spec fn file_selected_step(
    old: AppState,
    r: RepoState,
    nr: RepoState,
    path: String,
    new: AppState,
    eff: Effect,
) -> bool {
    if is_viewing_commit(r) {
        &&& new == AppState { current_repo: Some(nr), ..old }
        &&& eff == Effect::Nothing
        &&& match r.commit_diff {
            Some(d) => match spec_find_file_diff(d@, path@) {
                Some(fd) => shows_diff(nr.file_view, path, fd.hunks@) && nr == RepoState {
                    changed_files: nr.changed_files,
                    file_view: nr.file_view,
                    ..r
                },
                None => nr == RepoState { changed_files: nr.changed_files, ..r },
            },
            None => nr == RepoState { changed_files: nr.changed_files, ..r },
        }
    } else {
        &&& new == AppState { current_repo: Some(nr), loading: true, ..old }
        &&& nr == RepoState { changed_files: nr.changed_files, ..r }
        &&& eff == (if r.changed_files matches Some(cf) && spec_listed(cf.untracked@, path@) {
            Effect::LoadFileContent { repo_path: r.path, file_path: path }
        } else {
            Effect::LoadFileDiff { repo_path: r.path, file_path: path }
        })
    }
}

/// The rest of a click with modifiers, once the selection is `ncf`: with more than one
/// file selected, a commit view shows the selected files' diffs from the commit, and
/// the working directory requests their diffs; otherwise nothing more happens.
pub open spec fn click_view_step(
    old: AppState,
    r: RepoState,
    nr: RepoState,
    ncf: ChangedFilesState,
    new: AppState,
    eff: Effect,
) -> bool {
    if ncf.selected_files@.len() > 1 {
        if is_viewing_commit(r) {
            &&& new == AppState { current_repo: Some(nr), ..old }
            &&& eff == Effect::Nothing
            &&& match r.commit_diff {
                Some(d) => nr.file_view matches FileViewState::MultipleDiffs { files, view_mode }
                    && pairs_view(files@) == spec_selected_diffs(d@, ncf.selected_files@)
                    && view_mode == DiffViewMode::Unified && nr == RepoState {
                    changed_files: nr.changed_files,
                    file_view: nr.file_view,
                    ..r
                },
                None => nr == RepoState { changed_files: nr.changed_files, ..r },
            }
        } else {
            &&& new == AppState { current_repo: Some(nr), loading: true, ..old }
            &&& nr == RepoState { changed_files: nr.changed_files, ..r }
            &&& eff matches Effect::LoadMultipleFileDiffs { repo_path, file_paths } && repo_path
                == r.path && file_paths@ == ncf.selected_files@
        }
    } else {
        &&& new == AppState { current_repo: Some(nr), ..old }
        &&& nr == RepoState { changed_files: nr.changed_files, ..r }
        &&& eff == Effect::Nothing
    }
}

/// What the changed-file messages do to the state, and the effect they ask for.
pub open spec fn file_step(old: AppState, msg: AppMessage, new: AppState, eff: Effect) -> bool {
    match msg {
        AppMessage::LoadChangedFilesRequested => {
            &&& new == AppState { loading: true, ..old }
            &&& eff == match old.current_repo {
                Some(r) => Effect::LoadChangedFiles(r.path),
                None => Effect::Nothing,
            }
        },
        AppMessage::ChangedFilesLoaded(cf) => {
            &&& new == AppState {
                loading: false,
                current_repo: update_repo(
                    old.current_repo,
                    |r: RepoState|
                        RepoState {
                            changed_files: Some(
                                spec_loaded_files(
                                    cf,
                                    r.changed_files,
                                    spec_find_draft(old.config.commit_drafts@, r.path@),
                                ),
                            ),
                            ..r
                        },
                ),
                ..old
            }
            &&& eff == Effect::Nothing
        },
        AppMessage::ChangedFileSelected(path) => match old.current_repo {
            None => new == old && eff == Effect::Nothing,
            Some(r) => new.current_repo matches Some(nr) && is_single_selection(
                r.changed_files,
                nr.changed_files,
                path,
            ) && file_selected_step(old, r, nr, path, new, eff),
        },
        AppMessage::SelectFileWithModifiers { path, ctrl, shift } => match old.current_repo {
            None => new == old && eff == Effect::Nothing,
            Some(r) => match r.changed_files {
                None => new == old && eff == Effect::Nothing,
                Some(cf) => new.current_repo matches Some(nr) && nr.changed_files matches Some(ncf)
                    && is_after_click(ncf, cf, path, ctrl, shift) && click_view_step(
                    old,
                    r,
                    nr,
                    ncf,
                    new,
                    eff,
                ),
            },
        },
        AppMessage::StageSelectedFilesRequested => match files_of(old) {
            Some(cf) => if spec_files_to_stage(cf).len() > 0 {
                &&& new == AppState { loading: true, ..old }
                &&& eff matches Effect::StageFiles { repo_path, file_paths } && repo_path
                    == old.current_repo->0.path && file_paths@ == spec_files_to_stage(cf)
            } else {
                new == old && eff == Effect::Nothing
            },
            None => new == old && eff == Effect::Nothing,
        },
        AppMessage::UnstageSelectedFilesRequested => match files_of(old) {
            Some(cf) => if spec_files_to_unstage(cf).len() > 0 {
                &&& new == AppState { loading: true, ..old }
                &&& eff matches Effect::UnstageFiles { repo_path, file_paths } && repo_path
                    == old.current_repo->0.path && file_paths@ == spec_files_to_unstage(cf)
            } else {
                new == old && eff == Effect::Nothing
            },
            None => new == old && eff == Effect::Nothing,
        },
        AppMessage::FileContentRequested(path) => match old.current_repo {
            Some(r) => new == AppState { loading: true, ..old } && eff == Effect::LoadFileContent {
                repo_path: r.path,
                file_path: path,
            },
            None => new == old && eff == Effect::Nothing,
        },
        AppMessage::FileContentLoaded { path, content, language } => {
            &&& shown_result(old, new, FileViewState::Content { path, content, language })
            &&& eff == Effect::Nothing
        },
        AppMessage::FileDiffRequested(path) => match old.current_repo {
            Some(r) => new == AppState { loading: true, ..old } && eff == Effect::LoadFileDiff {
                repo_path: r.path,
                file_path: path,
            },
            None => new == old && eff == Effect::Nothing,
        },
        AppMessage::FileDiffLoaded { path, hunks } => {
            &&& single_result(
                old,
                new,
                path@,
                FileViewState::Diff { path, hunks, view_mode: DiffViewMode::Unified },
            )
            &&& eff == Effect::Nothing
        },
        AppMessage::MultipleFileDiffsLoaded { files } => {
            &&& shown_result(
                old,
                new,
                FileViewState::MultipleDiffs { files, view_mode: DiffViewMode::Unified },
            )
            &&& eff == Effect::Nothing
        },
        AppMessage::BinaryFileDetected { path, size } => {
            &&& shown_result(old, new, FileViewState::Binary { path, size })
            &&& eff == Effect::Nothing
        },
        AppMessage::DiffViewModeChanged(mode) => {
            &&& new == AppState {
                current_repo: update_repo(
                    old.current_repo,
                    |r: RepoState| RepoState { file_view: spec_with_view_mode(r.file_view, mode), ..r },
                ),
                ..old
            }
            &&& eff == Effect::Nothing
        },
        AppMessage::RevertFileRequested(path) => match old.current_repo {
            Some(r) => new == AppState { loading: true, ..old } && eff == Effect::RevertFile {
                repo_path: r.path,
                file_path: path,
            },
            None => new == old && eff == Effect::Nothing,
        },
        AppMessage::RevertFileCompleted => {
            &&& new == AppState { loading: false, ..old }
            &&& eff == match old.current_repo {
                Some(r) => Effect::LoadChangedFiles(r.path),
                None => Effect::Nothing,
            }
        },
        AppMessage::OpenFileInEditorRequested(path) => {
            &&& new == old
            &&& match old.current_repo {
                Some(r) => eff matches Effect::OpenInEditor { full_path } && full_path@ == path_join(
                    r.path@,
                    path@,
                ),
                None => eff == Effect::Nothing,
            }
        },
        AppMessage::OpenFileFolderRequested(path) => {
            &&& new == old
            &&& match old.current_repo {
                Some(r) => eff matches Effect::OpenFolder { full_path } && full_path@ == match path_parent(
                    path_join(r.path@, path@),
                ) {
                    Some(parent) => parent,
                    None => path_join(r.path@, path@),
                },
                None => eff == Effect::Nothing,
            }
        },
        _ => true,
    }
}

/// Whether the message is one the file handler takes.
pub open spec fn is_file_message(msg: AppMessage) -> bool {
    match msg {
        AppMessage::LoadChangedFilesRequested | AppMessage::ChangedFilesLoaded(_)
        | AppMessage::ChangedFileSelected(_) | AppMessage::SelectFileWithModifiers { .. }
        | AppMessage::StageSelectedFilesRequested | AppMessage::UnstageSelectedFilesRequested
        | AppMessage::FileContentRequested(_) | AppMessage::FileContentLoaded { .. }
        | AppMessage::FileDiffRequested(_) | AppMessage::FileDiffLoaded { .. }
        | AppMessage::MultipleFileDiffsLoaded { .. } | AppMessage::BinaryFileDetected { .. }
        | AppMessage::DiffViewModeChanged(_) | AppMessage::RevertFileRequested(_)
        | AppMessage::RevertFileCompleted | AppMessage::OpenFileInEditorRequested(_)
        | AppMessage::OpenFileFolderRequested(_) => true,
        _ => false,
    }
}

pub fn handle(state: &mut AppState, msg: AppMessage) -> (eff: Effect)
    requires
        is_file_message(msg),
        old(state).wf(),
        msg.wf(),
    ensures
        file_step(*old(state), msg, *final(state), eff),
        final(state).wf(),
{
    match msg {
        AppMessage::LoadChangedFilesRequested => {
            state.loading = true;
            if let Some(repo) = &state.current_repo {
                Effect::LoadChangedFiles(repo.path.clone())
            } else {
                Effect::Nothing
            }
        },
        AppMessage::ChangedFilesLoaded(changed_files) => {
            state.loading = false;
            let mut changed_files = changed_files;
            if let Some(repo) = &mut state.current_repo {
                if let Some(old_files) = &repo.changed_files {
                    changed_files.commit_summary = old_files.commit_summary.clone();
                    changed_files.commit_description = old_files.commit_description.clone();
                    changed_files.amend_last_commit = old_files.amend_last_commit;
                    changed_files.push_after_commit = old_files.push_after_commit;
                } else if !changed_files.is_commit_view {
                    if let Some(draft) = find_draft(&state.config.commit_drafts, &repo.path) {
                        changed_files.commit_summary = draft.summary.clone();
                        changed_files.commit_description = draft.description.clone();
                    }
                }
                repo.changed_files = Some(changed_files);
            }
            Effect::Nothing
        },
        AppMessage::ChangedFileSelected(path) => handle_file_selected(state, path),
        AppMessage::SelectFileWithModifiers { path, ctrl, shift } => handle_select_with_modifiers(
            state,
            path,
            ctrl,
            shift,
        ),
        AppMessage::StageSelectedFilesRequested => {
            if let Some(repo) = &state.current_repo {
                if let Some(files) = &repo.changed_files {
                    let files_to_stage = collect_files_to_stage(files);
                    if files_to_stage.len() > 0 {
                        let repo_path = repo.path.clone();
                        state.loading = true;
                        return Effect::StageFiles { repo_path, file_paths: files_to_stage };
                    }
                }
            }
            Effect::Nothing
        },
        AppMessage::UnstageSelectedFilesRequested => {
            if let Some(repo) = &state.current_repo {
                if let Some(files) = &repo.changed_files {
                    let files_to_unstage = collect_files_to_unstage(files);
                    if files_to_unstage.len() > 0 {
                        let repo_path = repo.path.clone();
                        state.loading = true;
                        return Effect::UnstageFiles { repo_path, file_paths: files_to_unstage };
                    }
                }
            }
            Effect::Nothing
        },
        AppMessage::FileContentRequested(path) => {
            if let Some(repo) = &state.current_repo {
                let repo_path = repo.path.clone();
                state.loading = true;
                Effect::LoadFileContent { repo_path, file_path: path }
            } else {
                Effect::Nothing
            }
        },
        AppMessage::FileContentLoaded { path, content, language } => {
            state.loading = false;
            if let Some(repo) = &mut state.current_repo {
                repo.file_view = FileViewState::Content { path, content, language };
            }
            Effect::Nothing
        },
        AppMessage::FileDiffRequested(path) => {
            if let Some(repo) = &state.current_repo {
                let repo_path = repo.path.clone();
                state.loading = true;
                Effect::LoadFileDiff { repo_path, file_path: path }
            } else {
                Effect::Nothing
            }
        },
        AppMessage::FileDiffLoaded { path, hunks } => {
            state.loading = false;
            if let Some(repo) = &mut state.current_repo {
                if should_apply_single_file_result(repo.changed_files.as_ref(), path.as_str()) {
                    repo.file_view = FileViewState::Diff {
                        path,
                        hunks,
                        view_mode: DiffViewMode::Unified,
                    };
                }
            }
            Effect::Nothing
        },
        AppMessage::MultipleFileDiffsLoaded { files } => {
            state.loading = false;
            if let Some(repo) = &mut state.current_repo {
                repo.file_view = FileViewState::MultipleDiffs { files, view_mode: DiffViewMode::Unified };
            }
            Effect::Nothing
        },
        AppMessage::BinaryFileDetected { path, size } => {
            state.loading = false;
            if let Some(repo) = &mut state.current_repo {
                repo.file_view = FileViewState::Binary { path, size };
            }
            Effect::Nothing
        },
        AppMessage::DiffViewModeChanged(mode) => {
            if let Some(repo) = &mut state.current_repo {
                match &mut repo.file_view {
                    FileViewState::Diff { view_mode, .. } => {
                        *view_mode = mode;
                    },
                    FileViewState::MultipleDiffs { view_mode, .. } => {
                        *view_mode = mode;
                    },
                    _ => {},
                }
            }
            Effect::Nothing
        },
        AppMessage::RevertFileRequested(path) => {
            if let Some(repo) = &state.current_repo {
                let repo_path = repo.path.clone();
                state.loading = true;
                Effect::RevertFile { repo_path, file_path: path }
            } else {
                Effect::Nothing
            }
        },
        AppMessage::RevertFileCompleted => {
            state.loading = false;
            if let Some(repo) = &state.current_repo {
                Effect::LoadChangedFiles(repo.path.clone())
            } else {
                Effect::Nothing
            }
        },
        AppMessage::OpenFileInEditorRequested(path) => {
            if let Some(repo) = &state.current_repo {
                Effect::OpenInEditor { full_path: join_path(repo.path.as_str(), path.as_str()) }
            } else {
                Effect::Nothing
            }
        },
        AppMessage::OpenFileFolderRequested(path) => {
            if let Some(repo) = &state.current_repo {
                let full = join_path(repo.path.as_str(), path.as_str());
                let folder = match parent_path(full.as_str()) {
                    Some(p) => p,
                    None => full,
                };
                Effect::OpenFolder { full_path: folder }
            } else {
                Effect::Nothing
            }
        },
        _ => Effect::Nothing,
    }
}

fn handle_file_selected(state: &mut AppState, path: String) -> (eff: Effect)
    requires
        old(state).wf(),
    ensures
        file_step(*old(state), AppMessage::ChangedFileSelected(path), *final(state), eff),
        final(state).wf(),
{
    if let Some(repo) = &mut state.current_repo {
        if let Some(files) = &mut repo.changed_files {
            files.selected_file = Some(path.clone());
            let mut selected: Vec<String> = Vec::new();
            selected.push(path.clone());
            files.selected_files = selected;
            files.last_clicked_file = Some(path.clone());
            assert(files.selected_files@ =~= seq![path]);
        }
        let is_viewing_commit = match &repo.selected_commit {
            Some(hash) => !is_working_dir_hash(hash.as_str()),
            None => false,
        };
        if is_viewing_commit {
            let found = match &repo.commit_diff {
                Some(commit_diff) => match find_file_diff(commit_diff, path.as_str()) {
                    Some(i) => Some(copy_hunks(&commit_diff[i].hunks)),
                    None => None,
                },
                None => None,
            };
            if let Some(hunks) = found {
                repo.file_view = FileViewState::Diff {
                    path,
                    hunks,
                    view_mode: DiffViewMode::Unified,
                };
            }
            Effect::Nothing
        } else {
            let is_untracked = match &repo.changed_files {
                Some(files) => is_listed(&files.untracked, path.as_str()),
                None => false,
            };
            let repo_path = repo.path.clone();
            state.loading = true;
            if is_untracked {
                Effect::LoadFileContent { repo_path, file_path: path }
            } else {
                Effect::LoadFileDiff { repo_path, file_path: path }
            }
        }
    } else {
        Effect::Nothing
    }
}

fn handle_select_with_modifiers(state: &mut AppState, path: String, ctrl: bool, shift: bool) -> (eff:
    Effect)
    requires
        old(state).wf(),
    ensures
        file_step(
            *old(state),
            AppMessage::SelectFileWithModifiers { path, ctrl, shift },
            *final(state),
            eff,
        ),
        final(state).wf(),
{
    if let Some(repo) = &mut state.current_repo {
        if let Some(files) = &mut repo.changed_files {
            select_with_modifiers(files, path, ctrl, shift);
            if files.selected_files.len() > 1 {
                let is_viewing_commit = match &repo.selected_commit {
                    Some(hash) => !is_working_dir_hash(hash.as_str()),
                    None => false,
                };
                if is_viewing_commit {
                    if let Some(commit_diff) = &repo.commit_diff {
                        let multi = selected_diffs(commit_diff, &files.selected_files);
                        repo.file_view = FileViewState::MultipleDiffs {
                            files: multi,
                            view_mode: DiffViewMode::Unified,
                        };
                    }
                    return Effect::Nothing;
                } else {
                    let selected_paths = copy_texts(&files.selected_files);
                    let repo_path = repo.path.clone();
                    state.loading = true;
                    return Effect::LoadMultipleFileDiffs { repo_path, file_paths: selected_paths };
                }
            }
        }
    }
    Effect::Nothing
}

} // verus!
