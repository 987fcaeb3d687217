//! The reusable rows and views: what a click on a file row means, a file's status
//! icon, and the file content view.
use vstd::prelude::*;

use crate::git::{DiffHunk, DiffLine, DiffLineType, WorkingDirStatus};

verus! {

/// Interaction type for file row clicks.
#[derive(Debug, Clone, Copy, PartialEq, Eq, Structural)]
pub enum FileRowInteraction {
    Idle,
    SingleClick { ctrl: bool, shift: bool },
    DoubleClick,
}

/// What a frame's pointer events on a row mean: a double click wins over a click, and a
/// click carries the modifiers (Ctrl or Command counts as `ctrl`).
pub open spec fn spec_row_interaction(
    double_clicked: bool,
    clicked: bool,
    ctrl_or_command: bool,
    shift: bool,
) -> FileRowInteraction {
    if double_clicked {
        FileRowInteraction::DoubleClick
    } else if clicked {
        FileRowInteraction::SingleClick { ctrl: ctrl_or_command, shift }
    } else {
        FileRowInteraction::Idle
    }
}

/// Classifies the pointer events of a file row.
pub fn row_interaction(double_clicked: bool, clicked: bool, ctrl_or_command: bool, shift: bool) -> (r:
    FileRowInteraction)
    ensures
        r == spec_row_interaction(double_clicked, clicked, ctrl_or_command, shift),
{
    if double_clicked {
        FileRowInteraction::DoubleClick
    } else if clicked {
        FileRowInteraction::SingleClick { ctrl: ctrl_or_command, shift }
    } else {
        FileRowInteraction::Idle
    }
}

/// The one-character icon shown before a file of the given status.
pub open spec fn spec_status_icon(status: WorkingDirStatus) -> Seq<char> {
    match status {
        WorkingDirStatus::Modified => "~"@,
        WorkingDirStatus::Deleted => "-"@,
        WorkingDirStatus::Untracked => "+"@,
        WorkingDirStatus::Renamed => "R"@,
        WorkingDirStatus::Conflicted => "!"@,
        WorkingDirStatus::TypeChanged => "T"@,
    }
}

/// The icon shown before a file of the given status.
pub fn status_icon(status: &WorkingDirStatus) -> (r: &'static str)
    ensures
        r@ == spec_status_icon(*status),
{
    match status {
        WorkingDirStatus::Modified => "~",
        WorkingDirStatus::Deleted => "-",
        WorkingDirStatus::Untracked => "+",
        WorkingDirStatus::Renamed => "R",
        WorkingDirStatus::Conflicted => "!",
        WorkingDirStatus::TypeChanged => "T",
    }
}

/// A file row: a file with its status icon.
pub struct FileRow<'a> {
    /// The file path to display.
    pub path: &'a str,
    /// The working directory status of the file.
    pub status: &'a WorkingDirStatus,
    /// Whether this file is currently selected.
    pub is_selected: bool,
}

impl<'a> FileRow<'a> {
    /// Creates a new file row.
    pub fn new(path: &'a str, status: &'a WorkingDirStatus, is_selected: bool) -> (r: Self)
        ensures
            r.path == path,
            r.status == status,
            r.is_selected == is_selected,
    {
        FileRow { path, status, is_selected }
    }

    /// The icon of the row's status.
    pub fn icon(&self) -> (r: &'static str)
        ensures
            r@ == spec_status_icon(*self.status),
    {
        status_icon(self.status)
    }
}

/// A file content view: a file's path and its text.
pub struct FileContentView<'a> {
    /// The file path being displayed.
    pub path: &'a str,
    /// The file content to display.
    pub content: &'a str,
}

impl<'a> FileContentView<'a> {
    /// Creates a new file content view.
    pub fn new(path: &'a str, content: &'a str) -> (r: Self)
        ensures
            r.path == path,
            r.content == content,
    {
        FileContentView { path, content }
    }

    /// Whether there is nothing to show, in which case the view says it cannot display the
    /// content.
    pub fn is_blank(&self) -> (r: bool)
        ensures
            r == (self.content@.len() == 0),
    {
        self.content.is_empty()
    }
}

/// A diff view: a file's path and its diff hunks.
pub struct DiffView<'a> {
    /// The file path being diffed.
    pub path: &'a str,
    /// The diff hunks to display.
    pub hunks: &'a Vec<DiffHunk>,
}

impl<'a> DiffView<'a> {
    /// Creates a new diff view.
    pub fn new(path: &'a str, hunks: &'a Vec<DiffHunk>) -> (r: Self)
        ensures
            r.path == path,
            r.hunks == hunks,
    {
        DiffView { path, hunks }
    }
}

/// The sign shown before a diff line: `+` for an addition, `-` for a deletion, a space
/// for context.
pub open spec fn spec_line_prefix(t: DiffLineType) -> Seq<char> {
    match t {
        DiffLineType::Addition => "+"@,
        DiffLineType::Deletion => "-"@,
        DiffLineType::Context => " "@,
    }
}

/// The sign shown before a diff line.
pub fn line_prefix(t: DiffLineType) -> (r: &'static str)
    ensures
        r@ == spec_line_prefix(t),
{
    match t {
        DiffLineType::Addition => "+",
        DiffLineType::Deletion => "-",
        DiffLineType::Context => " ",
    }
}

/// The line number shown beside a diff line: its old number, else its new one.
pub fn shown_line_number(line: &DiffLine) -> (r: Option<usize>)
    ensures
        r == (match line.old_line_number {
            Some(n) => Some(n),
            None => line.new_line_number,
        }),
{
    match line.old_line_number {
        Some(n) => Some(n),
        None => line.new_line_number,
    }
}

} // verus!
