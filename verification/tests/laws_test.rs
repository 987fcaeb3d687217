//! The library's laws on concrete values: undoing toggles, ignoring stale results,
//! dismissing errors, restoring drafts and the recent-repository list.

use crabontree::config::{find_draft, remove_draft, store_draft, CommitDraft};
use crabontree::effect::Effect;
use crabontree::git::{check_staged_changes, open_failure, GitError, StatusSummary, WorkingDirFile, WorkingDirStatus};
use crabontree::job::{JobId, JobIdGenerator};
use crabontree::message::AppMessage;
use crabontree::reducer::reduce;
use crabontree::state::{
    AppState, BranchInfo, BranchTreeState, ChangedFilesState, FileViewState, RepoState,
};

fn file(path: &str, status: WorkingDirStatus, is_staged: bool) -> WorkingDirFile {
    WorkingDirFile { path: path.to_string(), status, is_staged }
}

fn files_state() -> ChangedFilesState {
    ChangedFilesState {
        staged: vec![file("s.rs", WorkingDirStatus::Modified, true)],
        unstaged: vec![file("a.rs", WorkingDirStatus::Modified, false)],
        untracked: vec![file("n.rs", WorkingDirStatus::Untracked, false)],
        conflicted: vec![],
        selected_file: None,
        selected_files: Vec::new(),
        last_clicked_file: None,
        commit_message: String::new(),
        is_commit_view: false,
        commit_info: None,
        commit_summary: String::new(),
        commit_description: String::new(),
        amend_last_commit: false,
        push_after_commit: false,
    }
}

fn open_state() -> AppState {
    let mut state = AppState::default();
    state.current_repo = Some(RepoState::new(
        "/work/repo".to_string(),
        "main".to_string(),
        vec!["main".to_string()],
        StatusSummary::default(),
    ));
    state
}

fn sorted(mut v: Vec<String>) -> Vec<String> {
    v.sort();
    v
}

#[test]
fn toggling_a_branch_section_twice_restores_the_sections() {
    let mut state = open_state();
    state.current_repo.as_mut().unwrap().branch_tree = Some(BranchTreeState {
        local_branches: vec![BranchInfo {
            name: "main".to_string(),
            commit_hash: "abc".to_string(),
            is_current: true,
            upstream: None,
        }],
        remote_branches: Vec::new(),
        tags: Vec::new(),
        current_branch: "main".to_string(),
        expanded_sections: vec!["local".to_string(), "tags".to_string()],
        selected_branch: None,
    });
    for section in ["remote", "local"] {
        let before = state.current_repo.as_ref().unwrap().branch_tree.as_ref().unwrap().expanded_sections.clone();
        reduce(&mut state, AppMessage::BranchSectionToggled(section.to_string()));
        let middle = state.current_repo.as_ref().unwrap().branch_tree.as_ref().unwrap().expanded_sections.clone();
        assert_ne!(sorted(middle), sorted(before.clone()));
        reduce(&mut state, AppMessage::BranchSectionToggled(section.to_string()));
        let after = state.current_repo.as_ref().unwrap().branch_tree.as_ref().unwrap().expanded_sections.clone();
        assert_eq!(sorted(after), sorted(before));
    }
}

#[test]
fn ctrl_clicking_a_file_twice_restores_the_selection() {
    let mut state = open_state();
    let mut files = files_state();
    files.selected_files = vec!["a.rs".to_string()];
    state.current_repo.as_mut().unwrap().changed_files = Some(files);
    let msg = || AppMessage::SelectFileWithModifiers { path: "n.rs".to_string(), ctrl: true, shift: false };
    reduce(&mut state, msg());
    let sel = state.current_repo.as_ref().unwrap().changed_files.as_ref().unwrap().selected_files.clone();
    assert_eq!(sorted(sel), vec!["a.rs".to_string(), "n.rs".to_string()]);
    reduce(&mut state, msg());
    let sel = state.current_repo.as_ref().unwrap().changed_files.as_ref().unwrap().selected_files.clone();
    assert_eq!(sel, vec!["a.rs".to_string()]);
}

#[test]
fn a_stale_diff_is_ignored_but_content_and_binary_results_are_shown() {
    let mut state = open_state();
    let mut files = files_state();
    files.selected_file = Some("a.rs".to_string());
    files.selected_files = vec!["a.rs".to_string()];
    state.current_repo.as_mut().unwrap().changed_files = Some(files);
    state.loading = true;
    let eff = reduce(&mut state, AppMessage::FileDiffLoaded { path: "b.rs".to_string(), hunks: vec![] });
    assert!(matches!(eff, Effect::Nothing));
    assert!(!state.loading);
    assert!(matches!(state.current_repo.as_ref().unwrap().file_view, FileViewState::Empty));
    state.loading = true;
    let eff = reduce(
        &mut state,
        AppMessage::FileContentLoaded { path: "b.rs".to_string(), content: "x".to_string(), language: None },
    );
    assert!(matches!(eff, Effect::Nothing));
    assert!(!state.loading);
    assert!(matches!(
        &state.current_repo.as_ref().unwrap().file_view,
        FileViewState::Content { path, content, language: None } if path == "b.rs" && content == "x"
    ));
    reduce(&mut state, AppMessage::BinaryFileDetected { path: "c.rs".to_string(), size: 9 });
    assert!(matches!(
        &state.current_repo.as_ref().unwrap().file_view,
        FileViewState::Binary { path, size: 9 } if path == "c.rs"
    ));
    reduce(&mut state, AppMessage::MultipleFileDiffsLoaded { files: vec![("d.rs".to_string(), vec![])] });
    assert!(matches!(
        &state.current_repo.as_ref().unwrap().file_view,
        FileViewState::MultipleDiffs { files, .. } if files.len() == 1 && files[0].0 == "d.rs"
    ));
}

#[test]
fn an_error_then_its_dismissal_leaves_no_error() {
    let mut state = AppState::default();
    state.loading = true;
    state.committing = true;
    reduce(&mut state, AppMessage::Error("boom".to_string()));
    assert_eq!(state.error, Some("boom".to_string()));
    reduce(&mut state, AppMessage::ClearError);
    assert!(state.error.is_none());
    assert!(!state.loading);
    assert!(!state.committing);
}

#[test]
fn a_saved_draft_is_restored_when_the_repository_is_loaded_again() {
    let mut state = open_state();
    let mut files = files_state();
    files.commit_summary = "Fix the parser".to_string();
    files.commit_description = "Details".to_string();
    state.current_repo.as_mut().unwrap().changed_files = Some(files);
    state.save_commit_draft();
    assert_eq!(state.config.commit_drafts.len(), 1);

    let mut next = AppState::default();
    next.config = state.config.clone();
    next.current_repo = Some(RepoState::new(
        "/work/repo".to_string(),
        "main".to_string(),
        vec!["main".to_string()],
        StatusSummary::default(),
    ));
    reduce(&mut next, AppMessage::ChangedFilesLoaded(files_state()));
    let cf = next.current_repo.as_ref().unwrap().changed_files.as_ref().unwrap();
    assert_eq!(cf.commit_summary, "Fix the parser");
    assert_eq!(cf.commit_description, "Details");
}

#[test]
fn an_empty_panel_drops_the_saved_draft() {
    let mut state = open_state();
    store_draft(
        &mut state.config.commit_drafts,
        "/work/repo".to_string(),
        CommitDraft { summary: "old".to_string(), description: String::new() },
    );
    state.current_repo.as_mut().unwrap().changed_files = Some(files_state());
    state.save_commit_draft();
    assert!(find_draft(&state.config.commit_drafts, &"/work/repo".to_string()).is_none());
}

#[test]
fn a_commit_view_does_not_touch_the_drafts() {
    let mut state = open_state();
    let mut files = files_state();
    files.is_commit_view = true;
    files.commit_summary = "ignored".to_string();
    state.current_repo.as_mut().unwrap().changed_files = Some(files);
    state.save_commit_draft();
    assert!(state.config.commit_drafts.is_empty());
}

#[test]
fn storing_a_draft_replaces_only_that_repository() {
    let mut drafts = Vec::new();
    store_draft(&mut drafts, "/a".to_string(), CommitDraft { summary: "1".to_string(), description: String::new() });
    store_draft(&mut drafts, "/b".to_string(), CommitDraft { summary: "2".to_string(), description: String::new() });
    store_draft(&mut drafts, "/a".to_string(), CommitDraft { summary: "3".to_string(), description: String::new() });
    assert_eq!(drafts.len(), 2);
    assert_eq!(find_draft(&drafts, &"/a".to_string()).unwrap().summary, "3");
    assert_eq!(find_draft(&drafts, &"/b".to_string()).unwrap().summary, "2");
    remove_draft(&mut drafts, &"/a".to_string());
    assert!(find_draft(&drafts, &"/a".to_string()).is_none());
    assert_eq!(find_draft(&drafts, &"/b".to_string()).unwrap().summary, "2");
}

#[test]
fn reopening_a_listed_repository_keeps_the_recent_list() {
    let mut state = AppState::default();
    for p in ["/r1", "/r2", "/r1"] {
        reduce(
            &mut state,
            AppMessage::RepoOpened {
                path: p.to_string(),
                head: "main".to_string(),
                branches: vec![],
                status: StatusSummary::default(),
            },
        );
    }
    assert_eq!(state.config.recent_repos, vec!["/r2".to_string(), "/r1".to_string()]);
}

#[test]
fn successive_job_ids_differ() {
    let mut ids = JobIdGenerator::new();
    let a = JobId::new(&mut ids);
    let b = JobId::new(&mut ids);
    assert_eq!(a, JobId(1));
    assert_eq!(b, JobId(2));
    assert_ne!(a, b);
}

#[test]
fn job_ids_from_one_generator_never_repeat() {
    let mut ids = JobIdGenerator::new();
    let mut seen = std::collections::HashSet::new();
    for k in 0..10_000u64 {
        let id = JobId::new(&mut ids);
        assert_eq!(id, JobId(k + 1));
        assert!(seen.insert(id));
    }
}

#[test]
fn every_repository_keeps_at_most_one_draft() {
    let mut drafts = Vec::new();
    for (key, summary) in [("/a", "1"), ("/b", "2"), ("/a", "3"), ("/a", "4"), ("/b", "5")] {
        store_draft(
            &mut drafts,
            key.to_string(),
            CommitDraft { summary: summary.to_string(), description: String::new() },
        );
    }
    let keys: Vec<&str> = drafts.iter().map(|(k, _)| k.as_str()).collect();
    assert_eq!(keys, vec!["/a", "/b"]);
    assert_eq!(find_draft(&drafts, &"/a".to_string()).unwrap().summary, "4");
    assert_eq!(find_draft(&drafts, &"/b".to_string()).unwrap().summary, "5");
}

#[test]
fn committing_needs_staged_changes() {
    assert!(check_staged_changes(true).is_ok());
    match check_staged_changes(false) {
        Err(GitError::OperationFailed(m)) => assert_eq!(m, "No staged changes to commit"),
        other => panic!("unexpected result: {:?}", other),
    }
}

#[test]
fn the_same_state_and_message_give_the_same_result() {
    let messages = vec![
        AppMessage::RepoOpened {
            path: "/repo".to_string(),
            head: "main".to_string(),
            branches: vec!["main".to_string()],
            status: StatusSummary::default(),
        },
        AppMessage::CommitMessageUpdated("  ".to_string()),
        AppMessage::CreateCommitRequested,
        AppMessage::OpenFileInEditorRequested("src/lib.rs".to_string()),
        AppMessage::OpenFileFolderRequested("src/lib.rs".to_string()),
        AppMessage::CommitCreated {
            hash: "abc".to_string(),
            message: "m".to_string(),
            push_error: Some("rejected".to_string()),
        },
    ];
    let mut state = AppState::default();
    for msg in messages {
        let mut other = state.clone();
        let e1 = reduce(&mut state, msg.clone());
        let e2 = reduce(&mut other, msg);
        assert_eq!(format!("{:?}", e1), format!("{:?}", e2));
        assert_eq!(format!("{:?}", state), format!("{:?}", other));
    }
}

#[test]
fn a_repository_that_cannot_be_opened_is_missing_or_invalid() {
    match open_failure("/nowhere", false, "no such file") {
        GitError::RepoNotFound(p) => assert_eq!(p, "/nowhere"),
        other => panic!("unexpected error: {:?}", other),
    }
    match open_failure("/tmp", true, "could not find repository") {
        GitError::InvalidRepo(m) => assert_eq!(m, "Failed to open repository: could not find repository"),
        other => panic!("unexpected error: {:?}", other),
    }
}
