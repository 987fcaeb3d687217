//! Application state types.
use vstd::prelude::*;

use crate::config::{remove_draft, spec_without_draft, store_draft, AppConfig, CommitDraft};
use crate::git::{Commit, DiffHunk, FileDiff, StatusSummary, WorkingDirFile};
use crate::text::texts;

verus! {

/// The pseudo commit hash that stands for the working directory in the commit list.
pub const WORKING_DIR_HASH: &'static str = "0000000000000000000000000000000000000000";

/// Whether a commit hash is the working directory's pseudo hash.
pub fn is_working_dir_hash(hash: &str) -> (r: bool)
    ensures
        r == (hash@ == WORKING_DIR_HASH@),
{
    crate::text::str_eq(hash, WORKING_DIR_HASH)
}

/// Dialog for handling uncommitted changes before checkout.
#[derive(Debug, Clone)]
pub struct CheckoutChangesDialog {
    pub branch_name: String,
    pub is_remote: bool,
}

/// Dialog for handling remote branch name conflicts.
#[derive(Debug, Clone)]
pub struct BranchConflictDialog {
    pub remote_branch: String,
    pub local_name: String,
    pub new_name_input: String,
}

/// Main application state.
#[derive(Debug, Clone)]
pub struct AppState {
    pub current_repo: Option<RepoState>,
    pub loading: bool,
    pub committing: bool,
    pub error: Option<String>,
    pub config: AppConfig,
    pub staging_progress: Option<StagingProgress>,
    pub checkout_changes_dialog: Option<CheckoutChangesDialog>,
    pub branch_conflict_dialog: Option<BranchConflictDialog>,
}

/// Progress information for staging operations.
#[derive(Debug, Clone)]
pub struct StagingProgress {
    pub current: usize,
    pub total: usize,
    pub operation: String,
}

/// Branch information.
#[derive(Debug, Clone)]
pub struct BranchInfo {
    pub name: String,
    pub commit_hash: String,
    pub is_current: bool,
    pub upstream: Option<String>,
}

/// Tag information.
#[derive(Debug, Clone)]
pub struct TagInfo {
    pub name: String,
    pub commit_hash: String,
    pub message: Option<String>,
}

/// Branch and tag tree state (the branches pane).
///
/// Remote branches are grouped by remote, one `(remote name, branches)` entry per
/// remote that has branches; the order of the remotes is left open.
#[derive(Debug, Clone)]
pub struct BranchTreeState {
    pub local_branches: Vec<BranchInfo>,
    pub remote_branches: Vec<(String, Vec<BranchInfo>)>,
    pub tags: Vec<TagInfo>,
    pub current_branch: String,
    /// Names of the expanded sections; no name occurs twice.
    pub expanded_sections: Vec<String>,
    /// Selected branch (for keyboard navigation).
    pub selected_branch: Option<String>,
}

impl BranchTreeState {
    /// Every section name occurs at most once.
    pub open spec fn wf(&self) -> bool {
        texts(self.expanded_sections@).no_duplicates()
    }
}

/// Details of a commit shown beside its changed files.
#[derive(Debug, Clone)]
pub struct CommitInfo {
    pub hash: String,
    pub author_name: String,
    pub author_email: String,
    pub author_date: i64,
    /// Parent hashes shortened to their first ten characters.
    pub parent_hashes: Vec<String>,
    /// Local branches whose tip is this commit.
    pub branches: Vec<String>,
    /// Tags on this commit.
    pub tags: Vec<String>,
}

/// Changed files state (the changed files pane).
#[derive(Debug, Clone)]
pub struct ChangedFilesState {
    pub staged: Vec<WorkingDirFile>,
    pub unstaged: Vec<WorkingDirFile>,
    pub untracked: Vec<WorkingDirFile>,
    pub conflicted: Vec<WorkingDirFile>,
    pub selected_file: Option<String>,
    /// The selected paths; no path occurs twice.
    pub selected_files: Vec<String>,
    /// Anchor for range selection.
    pub last_clicked_file: Option<String>,
    pub commit_message: String,
    /// True when viewing a commit, false when viewing the working directory.
    pub is_commit_view: bool,
    pub commit_info: Option<CommitInfo>,
    pub commit_summary: String,
    pub commit_description: String,
    pub amend_last_commit: bool,
    pub push_after_commit: bool,
}

impl ChangedFilesState {
    /// Every selected path occurs at most once.
    pub open spec fn wf(&self) -> bool {
        texts(self.selected_files@).no_duplicates()
    }
}

/// Diff view mode.
#[derive(Debug, Clone, Copy, PartialEq, Eq, Structural)]
pub enum DiffViewMode {
    Unified,
    SideBySide,
    ContentOnly,
}

/// File viewer state (the diff viewer pane).
#[derive(Debug, Clone)]
pub enum FileViewState {
    Empty,
    Content { path: String, content: String, language: Option<String> },
    Diff { path: String, hunks: Vec<DiffHunk>, view_mode: DiffViewMode },
    MultipleDiffs { files: Vec<(String, Vec<DiffHunk>)>, view_mode: DiffViewMode },
    Binary { path: String, size: u64 },
}

impl Default for FileViewState {
    fn default() -> (r: Self)
        ensures
            r is Empty,
    {
        FileViewState::Empty
    }
}

/// State of an open repository.
#[derive(Debug, Clone)]
pub struct RepoState {
    pub path: String,
    pub head: String,
    pub branches: Vec<String>,
    pub status_summary: StatusSummary,
    pub commits: Vec<Commit>,
    pub selected_commit: Option<String>,
    pub commit_diff: Option<Vec<FileDiff>>,
    pub working_dir_files: Vec<WorkingDirFile>,
    pub commit_message: String,
    pub author_name: String,
    pub author_email: String,
    pub branch_tree: Option<BranchTreeState>,
    pub changed_files: Option<ChangedFilesState>,
    pub file_view: FileViewState,
}

impl RepoState {
    /// The pane states it holds are well formed.
    pub open spec fn wf(&self) -> bool {
        &&& (self.branch_tree matches Some(t) ==> t.wf())
        &&& (self.changed_files matches Some(c) ==> c.wf())
    }

    /// Whether this is the state of a freshly opened repository with the given data.
    pub open spec fn is_fresh(
        self,
        path: String,
        head: String,
        branches: Vec<String>,
        status_summary: StatusSummary,
    ) -> bool {
        &&& self.path == path
        &&& self.head == head
        &&& self.branches == branches
        &&& self.status_summary == status_summary
        &&& self.commits@.len() == 0
        &&& self.selected_commit is None
        &&& self.commit_diff is None
        &&& self.working_dir_files@.len() == 0
        &&& self.commit_message@.len() == 0
        &&& self.author_name@.len() == 0
        &&& self.author_email@.len() == 0
        &&& self.branch_tree is None
        &&& self.changed_files is None
        &&& self.file_view is Empty
    }

    pub fn new(path: String, head: String, branches: Vec<String>, status_summary: StatusSummary) -> (r:
        Self)
        ensures
            r.is_fresh(path, head, branches, status_summary),
            r.wf(),
    {
        RepoState {
            path,
            head,
            branches,
            status_summary,
            commits: Vec::new(),
            selected_commit: None,
            commit_diff: None,
            working_dir_files: Vec::new(),
            commit_message: String::new(),
            author_name: String::new(),
            author_email: String::new(),
            branch_tree: None,
            changed_files: None,
            file_view: FileViewState::Empty,
        }
    }
}

impl AppState {
    /// The open repository, if any, is well formed, and no repository has two stored
    /// drafts.
    pub open spec fn wf(&self) -> bool {
        &&& self.current_repo matches Some(r) ==> r.wf()
        &&& self.config.wf()
    }

    /// The stored drafts once the commit panel of the open repository is saved: in the
    /// working directory view its summary and description become the repository's draft,
    /// or the draft is dropped when both are empty; otherwise nothing changes.
    pub open spec fn spec_saved_drafts(self) -> Seq<(String, CommitDraft)> {
        let drafts = self.config.commit_drafts@;
        match self.current_repo {
            Some(r) => match r.changed_files {
                Some(cf) => if cf.is_commit_view {
                    drafts
                } else if cf.commit_summary@.len() == 0 && cf.commit_description@.len() == 0 {
                    spec_without_draft(drafts, r.path@)
                } else {
                    spec_without_draft(drafts, r.path@).push(
                        (
                            r.path,
                            CommitDraft {
                                summary: cf.commit_summary,
                                description: cf.commit_description,
                            },
                        ),
                    )
                },
                None => drafts,
            },
            None => drafts,
        }
    }

    /// Saves the commit panel of the open repository as its draft, as the window does when
    /// it closes, so that the panel is filled again when the repository is next opened.
    pub fn save_commit_draft(&mut self)
        ensures
            final(self).config.commit_drafts@ == old(self).spec_saved_drafts(),
            old(self).wf() ==> final(self).wf(),
            *final(self) == (AppState {
                config: AppConfig { commit_drafts: final(self).config.commit_drafts, ..old(self).config },
                ..*old(self)
            }),
    {
        if let Some(repo) = &self.current_repo {
            if let Some(changed_files) = &repo.changed_files {
                if !changed_files.is_commit_view {
                    let repo_key = repo.path.clone();
                    if changed_files.commit_summary.as_str().is_empty()
                        && changed_files.commit_description.as_str().is_empty() {
                        remove_draft(&mut self.config.commit_drafts, &repo_key);
                    } else {
                        let draft = CommitDraft {
                            summary: changed_files.commit_summary.clone(),
                            description: changed_files.commit_description.clone(),
                        };
                        store_draft(&mut self.config.commit_drafts, repo_key, draft);
                    }
                }
            }
        }
    }
}

impl Default for AppState {
    fn default() -> (r: Self)
        ensures
            r.current_repo is None,
            !r.loading,
            !r.committing,
            r.error is None,
            r.config.theme@ == "dark"@,
            r.config.recent_repos@.len() == 0,
            r.config.max_recent == 10,
            r.config.dock_layout is None,
            r.config.commit_drafts@.len() == 0,
            r.staging_progress is None,
            r.checkout_changes_dialog is None,
            r.branch_conflict_dialog is None,
            r.wf(),
    {
        AppState {
            current_repo: None,
            loading: false,
            committing: false,
            error: None,
            config: AppConfig::default(),
            staging_progress: None,
            checkout_changes_dialog: None,
            branch_conflict_dialog: None,
        }
    }
}

} // verus!
