//! The changed files pane: what clicks, the Enter key and the commit panel ask for, and
//! the commit information shown for a commit.
use vstd::prelude::*;

use crate::git::WorkingDirFile;
use crate::message::AppMessage;
use crate::reducer::helpers::file_selection::{is_listed, spec_listed};
use crate::state::{ChangedFilesState, CommitInfo};
use crate::text::{concat_str, texts};
use crate::ui::widgets::FileRowInteraction;

verus! {

/// Action to be taken after rendering the changed files pane.
#[derive(Debug, Clone)]
pub enum ChangedFilesAction {
    Idle,
    SelectFile(String),
    SelectFileWithModifiers { path: String, ctrl: bool, shift: bool },
    ToggleStage { path: String, is_staged: bool },
    StageSelectedFiles,
    UnstageSelectedFiles,
    CommitSummaryUpdated(String),
    CommitDescriptionUpdated(String),
    AmendLastCommitToggled(bool),
    PushAfterCommitToggled(bool),
    CommitChangesRequested { summary: String, description: String, amend: bool, push: bool },
    RevertFile(String),
    OpenInEditor(String),
    OpenFolder(String),
}

/// Whether some selected path is listed as unstaged or untracked.
pub open spec fn spec_has_unstaged_selection(files: ChangedFilesState) -> bool {
    exists|i: int|
        0 <= i < files.selected_files@.len() && (spec_listed(
            files.unstaged@,
            #[trigger] files.selected_files@[i]@,
        ) || spec_listed(files.untracked@, files.selected_files@[i]@))
}

/// What the Enter key does in the working directory view with files selected: stage
/// them when one of them can be staged, unstage them otherwise; nothing in a commit's
/// view or without a selection.
pub open spec fn spec_enter_action_kind(files: ChangedFilesState) -> Option<bool> {
    if !files.is_commit_view && files.selected_files@.len() > 0 {
        Some(spec_has_unstaged_selection(files))
    } else {
        None
    }
}

/// The action of the Enter key in the changed files pane.
pub fn enter_key_action(files: &ChangedFilesState) -> (r: ChangedFilesAction)
    ensures
        match spec_enter_action_kind(*files) {
            Some(true) => r is StageSelectedFiles,
            Some(false) => r is UnstageSelectedFiles,
            None => r is Idle,
        },
{
    if files.is_commit_view || files.selected_files.len() == 0 {
        return ChangedFilesAction::Idle;
    }
    let mut i: usize = 0;
    while i < files.selected_files.len()
        invariant
            i <= files.selected_files@.len(),
            !files.is_commit_view,
            forall|j: int|
                0 <= j < i ==> !spec_listed(files.unstaged@, #[trigger] files.selected_files@[j]@)
                    && !spec_listed(files.untracked@, files.selected_files@[j]@),
        decreases files.selected_files@.len() - i,
    {
        let p = files.selected_files[i].as_str();
        if is_listed(&files.unstaged, p) || is_listed(&files.untracked, p) {
            assert(spec_listed(files.unstaged@, files.selected_files@[i as int]@) || spec_listed(
                files.untracked@,
                files.selected_files@[i as int]@,
            ));
            return ChangedFilesAction::StageSelectedFiles;
        }
        i = i + 1;
    }
    ChangedFilesAction::UnstageSelectedFiles
}

/// What an interaction with a file row asks for: a click selects the file (with the
/// modifiers when Ctrl or Shift is held), a double click toggles whether it is staged
/// (except in a commit's view); `Idle` leaves the pane's action as it was.
pub open spec fn is_row_action(
    r: ChangedFilesAction,
    file: WorkingDirFile,
    interaction: FileRowInteraction,
    is_commit_view: bool,
) -> bool {
    match interaction {
        FileRowInteraction::SingleClick { ctrl, shift } => if ctrl || shift {
            r == ChangedFilesAction::SelectFileWithModifiers { path: file.path, ctrl, shift }
        } else {
            r == ChangedFilesAction::SelectFile(file.path)
        },
        FileRowInteraction::DoubleClick => if is_commit_view {
            r is Idle
        } else {
            r == ChangedFilesAction::ToggleStage { path: file.path, is_staged: file.is_staged }
        },
        FileRowInteraction::Idle => r is Idle,
    }
}

/// The action of an interaction with a file row.
pub fn row_action(file: &WorkingDirFile, interaction: FileRowInteraction, is_commit_view: bool) -> (r:
    ChangedFilesAction)
    ensures
        is_row_action(r, *file, interaction, is_commit_view),
{
    match interaction {
        FileRowInteraction::SingleClick { ctrl, shift } => {
            if ctrl || shift {
                ChangedFilesAction::SelectFileWithModifiers { path: file.path.clone(), ctrl, shift }
            } else {
                ChangedFilesAction::SelectFile(file.path.clone())
            }
        },
        FileRowInteraction::DoubleClick => {
            if !is_commit_view {
                ChangedFilesAction::ToggleStage { path: file.path.clone(), is_staged: file.is_staged }
            } else {
                ChangedFilesAction::Idle
            }
        },
        FileRowInteraction::Idle => ChangedFilesAction::Idle,
    }
}

/// Whether the Commit button is enabled: something is staged, the summary is not empty
/// and nothing is loading.
pub fn commit_enabled(files: &ChangedFilesState, loading: bool) -> (r: bool)
    ensures
        r == (files.staged@.len() > 0 && files.commit_summary@.len() > 0 && !loading),
{
    files.staged.len() > 0 && !files.commit_summary.as_str().is_empty() && !loading
}

/// The request the Commit button sends: the panel's summary and description, with the
/// checkbox values of this frame.
pub fn commit_request(files: &ChangedFilesState, amend: bool, push: bool) -> (r: ChangedFilesAction)
    ensures
        r == (ChangedFilesAction::CommitChangesRequested {
            summary: files.commit_summary,
            description: files.commit_description,
            amend,
            push,
        }),
{
    ChangedFilesAction::CommitChangesRequested {
        summary: files.commit_summary.clone(),
        description: files.commit_description.clone(),
        amend,
        push,
    }
}

/// The action of a frame: that of the file list, else that of the commit panel, else
/// that of the keyboard.
pub fn merge_actions(
    list_action: ChangedFilesAction,
    panel_action: ChangedFilesAction,
    keyboard_action: ChangedFilesAction,
) -> (r: ChangedFilesAction)
    ensures
        r == (if !(list_action is Idle) {
            list_action
        } else if !(panel_action is Idle) {
            panel_action
        } else {
            keyboard_action
        }),
{
    match list_action {
        ChangedFilesAction::Idle => match panel_action {
            ChangedFilesAction::Idle => keyboard_action,
            other => other,
        },
        other => other,
    }
}

/// Converts a changed files action to the message it sends.
pub open spec fn spec_files_message(action: ChangedFilesAction) -> Option<AppMessage> {
    match action {
        ChangedFilesAction::Idle => None,
        ChangedFilesAction::SelectFile(path) => Some(AppMessage::ChangedFileSelected(path)),
        ChangedFilesAction::SelectFileWithModifiers { path, ctrl, shift } => Some(
            AppMessage::SelectFileWithModifiers { path, ctrl, shift },
        ),
        ChangedFilesAction::ToggleStage { path, is_staged } => if is_staged {
            Some(AppMessage::UnstageFileRequested(path))
        } else {
            Some(AppMessage::StageFileRequested(path))
        },
        ChangedFilesAction::StageSelectedFiles => Some(AppMessage::StageSelectedFilesRequested),
        ChangedFilesAction::UnstageSelectedFiles => Some(AppMessage::UnstageSelectedFilesRequested),
        ChangedFilesAction::CommitSummaryUpdated(s) => Some(AppMessage::CommitSummaryUpdated(s)),
        ChangedFilesAction::CommitDescriptionUpdated(d) => Some(
            AppMessage::CommitDescriptionUpdated(d),
        ),
        ChangedFilesAction::AmendLastCommitToggled(b) => Some(AppMessage::AmendLastCommitToggled(b)),
        ChangedFilesAction::PushAfterCommitToggled(b) => Some(AppMessage::PushAfterCommitToggled(b)),
        ChangedFilesAction::CommitChangesRequested { summary, description, amend, push } => Some(
            AppMessage::CommitChangesRequested { summary, description, amend, push },
        ),
        ChangedFilesAction::RevertFile(path) => Some(AppMessage::RevertFileRequested(path)),
        ChangedFilesAction::OpenInEditor(path) => Some(AppMessage::OpenFileInEditorRequested(path)),
        ChangedFilesAction::OpenFolder(path) => Some(AppMessage::OpenFileFolderRequested(path)),
    }
}

/// Converts a changed files action to the message it sends.
pub fn action_to_message(action: ChangedFilesAction) -> (r: Option<AppMessage>)
    ensures
        r == spec_files_message(action),
{
    match action {
        ChangedFilesAction::Idle => None,
        ChangedFilesAction::SelectFile(path) => Some(AppMessage::ChangedFileSelected(path)),
        ChangedFilesAction::SelectFileWithModifiers { path, ctrl, shift } => Some(
            AppMessage::SelectFileWithModifiers { path, ctrl, shift },
        ),
        ChangedFilesAction::ToggleStage { path, is_staged } => {
            if is_staged {
                Some(AppMessage::UnstageFileRequested(path))
            } else {
                Some(AppMessage::StageFileRequested(path))
            }
        },
        ChangedFilesAction::StageSelectedFiles => Some(AppMessage::StageSelectedFilesRequested),
        ChangedFilesAction::UnstageSelectedFiles => Some(AppMessage::UnstageSelectedFilesRequested),
        ChangedFilesAction::CommitSummaryUpdated(s) => Some(AppMessage::CommitSummaryUpdated(s)),
        ChangedFilesAction::CommitDescriptionUpdated(d) => Some(
            AppMessage::CommitDescriptionUpdated(d),
        ),
        ChangedFilesAction::AmendLastCommitToggled(b) => Some(AppMessage::AmendLastCommitToggled(b)),
        ChangedFilesAction::PushAfterCommitToggled(b) => Some(AppMessage::PushAfterCommitToggled(b)),
        ChangedFilesAction::CommitChangesRequested { summary, description, amend, push } => Some(
            AppMessage::CommitChangesRequested { summary, description, amend, push },
        ),
        ChangedFilesAction::RevertFile(path) => Some(AppMessage::RevertFileRequested(path)),
        ChangedFilesAction::OpenInEditor(path) => Some(AppMessage::OpenFileInEditorRequested(path)),
        ChangedFilesAction::OpenFolder(path) => Some(AppMessage::OpenFileFolderRequested(path)),
    }
}

/// The texts joined with a separator between each two.
pub open spec fn spec_join(items: Seq<Seq<char>>, sep: Seq<char>) -> Seq<char>
    decreases items.len(),
{
    if items.len() == 0 {
        seq![]
    } else if items.len() == 1 {
        items[0]
    } else {
        spec_join(items.drop_last(), sep) + sep + items.last()
    }
}

/// The strings joined with a separator between each two (`join`).
pub fn join_with(items: &Vec<String>, sep: &str) -> (r: String)
    ensures
        r@ == spec_join(texts(items@), sep@),
{
    let mut out = String::new();
    let mut i: usize = 0;
    while i < items.len()
        invariant
            i <= items@.len(),
            out@ == spec_join(texts(items@.take(i as int)), sep@),
        decreases items@.len() - i,
    {
        proof {
            assert(texts(items@.take(i + 1)).drop_last() =~= texts(items@.take(i as int)));
            assert(texts(items@.take(i + 1)).last() == items@[i as int]@);
        }
        if i == 0 {
            out = items[i].clone();
        } else {
            let with_sep = concat_str(out.as_str(), sep);
            out = concat_str(with_sep.as_str(), items[i].as_str());
        }
        i = i + 1;
    }
    assert(items@.take(i as int) =~= items@);
    out
}

/// The line saying which branches or tags contain a commit.
pub open spec fn spec_containment_line(items: Seq<Seq<char>>, kind: Seq<char>, kinds: Seq<char>) -> Seq<
    char,
> {
    if items.len() == 0 {
        "Contained in no "@ + kind
    } else {
        "Contained in "@ + kinds + ": "@ + spec_join(items, ", "@)
    }
}

/// The line saying which branches (`kind` "branch", `kinds` "branches") or tags contain
/// a commit: "Contained in no branch", or "Contained in branches: " and their names
/// separated by commas.
pub fn containment_line(items: &Vec<String>, kind: &str, kinds: &str) -> (r: String)
    ensures
        r@ == spec_containment_line(texts(items@), kind@, kinds@),
{
    if items.len() == 0 {
        concat_str("Contained in no ", kind)
    } else {
        let head = concat_str("Contained in ", kinds);
        let head = concat_str(head.as_str(), ": ");
        let list = join_with(items, ", ");
        concat_str(head.as_str(), list.as_str())
    }
}

/// The author line of the commit panel: the name, then the e-mail address in angle
/// brackets.
pub fn author_line(info: &CommitInfo) -> (r: String)
    ensures
        r@ == info.author_name@ + " <"@ + info.author_email@ + ">"@,
{
    let a = concat_str(info.author_name.as_str(), " <");
    let b = concat_str(a.as_str(), info.author_email.as_str());
    concat_str(b.as_str(), ">")
}

/// The parents line of the commit panel: the short parent hashes separated by spaces;
/// `None` when the commit has no parent and the line is left out.
pub fn parents_line(info: &CommitInfo) -> (r: Option<String>)
    ensures
        info.parent_hashes@.len() == 0 ==> r is None,
        info.parent_hashes@.len() > 0 ==> (r matches Some(s) && s@ == spec_join(
            texts(info.parent_hashes@),
            " "@,
        )),
{
    if info.parent_hashes.len() == 0 {
        None
    } else {
        Some(join_with(&info.parent_hashes, " "))
    }
}

} // verus!
