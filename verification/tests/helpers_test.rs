//! Tests for the reducer's helpers: commit views and file selection.

use crabontree::git::{Commit, FileDiff, FileStatus, WorkingDirFile, WorkingDirStatus};
use crabontree::reducer::helpers::commit_view::{build_commit_info, build_commit_view_changed_files};
use crabontree::reducer::helpers::file_selection::{
    collect_files_to_stage, should_apply_multi_file_result, should_apply_single_file_result,
};
use crabontree::state::{BranchInfo, BranchTreeState, ChangedFilesState, TagInfo};

fn changed_files() -> ChangedFilesState {
    ChangedFilesState {
        staged: vec![WorkingDirFile {
            path: "b.rs".to_string(),
            status: WorkingDirStatus::Modified,
            is_staged: true,
        }],
        unstaged: vec![WorkingDirFile {
            path: "a.rs".to_string(),
            status: WorkingDirStatus::Modified,
            is_staged: false,
        }],
        untracked: vec![],
        conflicted: vec![],
        selected_file: None,
        selected_files: Vec::new(),
        last_clicked_file: None,
        commit_message: String::new(),
        is_commit_view: false,
        commit_info: None,
        commit_summary: String::new(),
        commit_description: String::new(),
        amend_last_commit: false,
        push_after_commit: false,
    }
}

#[test]
fn build_commit_info_collects_branches_tags_and_short_parents() {
    let commit = Commit {
        hash: "0123456789abcdef".into(),
        hash_short: "0123456".into(),
        author_name: "A".into(),
        author_email: "a@example.com".into(),
        author_date: 1,
        committer_name: "A".into(),
        committer_email: "a@example.com".into(),
        committer_date: 1,
        message: "msg".into(),
        message_summary: "msg".into(),
        parent_hashes: vec!["1234567890abcdef".into()],
    };
    let tree = BranchTreeState {
        local_branches: vec![BranchInfo {
            name: "main".into(),
            commit_hash: commit.hash.clone(),
            is_current: true,
            upstream: None,
        }],
        remote_branches: Default::default(),
        tags: vec![TagInfo { name: "v1.0.0".into(), commit_hash: commit.hash.clone(), message: None }],
        current_branch: "main".into(),
        expanded_sections: Default::default(),
        selected_branch: None,
    };

    let info = build_commit_info(&vec![commit], Some(&tree), "0123456789abcdef").unwrap();
    assert_eq!(info.branches, vec!["main".to_string()]);
    assert_eq!(info.tags, vec!["v1.0.0".to_string()]);
    assert_eq!(info.parent_hashes, vec!["1234567890".to_string()]);
}

#[test]
fn build_commit_view_changed_files_maps_status_and_sets_commit_mode() {
    let diff = vec![FileDiff {
        path: "src/lib.rs".into(),
        status: FileStatus::Added,
        additions: 1,
        deletions: 0,
        hunks: vec![],
    }];

    let changed = build_commit_view_changed_files(&diff, "message".into(), None);
    assert!(changed.is_commit_view);
    assert_eq!(changed.staged.len(), 1);
    assert_eq!(changed.staged[0].status, WorkingDirStatus::Untracked);
    assert_eq!(changed.commit_message, "message");
}

#[test]
fn collect_files_to_stage_filters_by_unstaged_or_untracked() {
    let mut files = changed_files();
    files.selected_files.push("a.rs".to_string());
    files.selected_files.push("c.rs".to_string());

    let paths = collect_files_to_stage(&files);
    assert_eq!(paths, vec!["a.rs".to_string()]);
}

#[test]
fn should_apply_single_file_result_rejects_stale_path() {
    let mut files = changed_files();
    files.selected_file = Some("a.rs".to_string());
    files.selected_files.push("a.rs".to_string());
    assert!(!should_apply_single_file_result(Some(&files), "b.rs"));
}

#[test]
fn should_apply_multi_file_result_requires_exact_match() {
    let mut files = changed_files();
    files.selected_files.push("a.rs".to_string());
    files.selected_files.push("b.rs".to_string());

    assert!(should_apply_multi_file_result(
        Some(&files),
        &vec!["b.rs".to_string(), "a.rs".to_string()]
    ));
    assert!(!should_apply_multi_file_result(Some(&files), &vec!["a.rs".to_string()]));
}
