//! The git model and the outcomes of background work: statuses, commits, diffs,
//! branch trees, the changed-files lists, checkout steps and file paths.

use crabontree::effect::Effect;
use crabontree::git::{
    batch_chunks, fallback_email, build_commit, diff_line_from_origin, file_diff_from_hunks, head_label, looks_binary,
    split_remote_ref, status_summary, validate_commit_message, working_dir_entry, DiffHunk,
    DiffLineType, FileStatus, GitError, LocalBranch, RemoteBranch, StatusFlags, StatusSummary,
    Tag, WorkingDirFile, WorkingDirStatus,
};
use crabontree::message::AppMessage;
use crabontree::outcomes::{
    build_branch_tree, file_content_message, group_remote_branches, local_branch_name,
    partition_changed_files, plan_after_change_check, plan_after_clearing,
    plan_after_local_check, reply_after_name_check, stash_message, CheckoutStep,
};
use crabontree::reducer::reduce;
use crabontree::state::{AppState, RepoState};

fn s(x: &str) -> String {
    x.to_string()
}

fn wd(path: &str, status: WorkingDirStatus, is_staged: bool) -> WorkingDirFile {
    WorkingDirFile { path: s(path), status, is_staged }
}

#[test]
fn status_summary_counts_each_kind() {
    let files = vec![
        wd("a", WorkingDirStatus::Modified, false),
        wd("b", WorkingDirStatus::Renamed, true),
        wd("c", WorkingDirStatus::Untracked, false),
        wd("d", WorkingDirStatus::Deleted, false),
        wd("e", WorkingDirStatus::Conflicted, false),
    ];
    let sum = status_summary(&files);
    assert_eq!(sum, StatusSummary { modified: 3, added: 1, deleted: 1, untracked: 1 });
}

#[test]
fn working_dir_entries_follow_the_flag_priority() {
    let none = StatusFlags::default();
    assert!(working_dir_entry(s("x"), none).is_none());
    let staged_new = StatusFlags { index_new: true, ..Default::default() };
    let e = working_dir_entry(s("x"), staged_new).unwrap();
    assert_eq!(e.status, WorkingDirStatus::Modified);
    assert!(e.is_staged);
    let conflict = StatusFlags { conflicted: true, wt_new: true, ..Default::default() };
    assert_eq!(working_dir_entry(s("x"), conflict).unwrap().status, WorkingDirStatus::Conflicted);
    let untracked = StatusFlags { wt_new: true, ..Default::default() };
    let e = working_dir_entry(s("x"), untracked).unwrap();
    assert_eq!(e.status, WorkingDirStatus::Untracked);
    assert!(!e.is_staged);
}

#[test]
fn commits_get_a_short_hash_and_a_summary() {
    let c = build_commit(
        s("0123456789abcdef"),
        s("Subject line\r\n\nBody"),
        s("A"),
        s("a@x"),
        5,
        s("C"),
        s("c@x"),
        6,
        vec![s("ff")],
    );
    assert_eq!(c.hash_short, "0123456");
    assert_eq!(c.message_summary, "Subject line");
    assert_eq!(c.committer_date, 6);
}

#[test]
fn blank_commit_messages_are_refused() {
    assert!(validate_commit_message("Fix").is_ok());
    match validate_commit_message(" \n\t ") {
        Err(GitError::OperationFailed(m)) => assert_eq!(m, "Commit message cannot be empty"),
        other => panic!("unexpected {:?}", other),
    }
    assert_eq!(GitError::RefNotFound(s("x")).message(), "Reference not found: x");
}

#[test]
fn head_labels() {
    assert_eq!(head_label(true, Some(s("abcdef0123")), None), "detached at abcdef0");
    assert_eq!(head_label(true, None, None), "detached HEAD");
    assert_eq!(head_label(false, None, Some(s("main"))), "main");
    assert_eq!(head_label(false, None, None), "HEAD");
}

#[test]
fn remote_refs_split_at_the_first_slash() {
    assert_eq!(split_remote_ref("origin/feature/x"), Some((s("origin"), s("feature/x"))));
    assert_eq!(split_remote_ref("HEAD"), None);
    assert_eq!(local_branch_name("origin/feature/x"), "feature/x");
    assert_eq!(local_branch_name("main"), "main");
}

#[test]
fn a_zero_byte_marks_a_binary_file() {
    assert!(looks_binary(&[1, 2, 0, 3]));
    assert!(!looks_binary(b"plain text"));
    assert!(!looks_binary(&[]));
}

#[test]
fn patch_lines_become_diff_lines_and_are_counted() {
    let add = diff_line_from_origin('+', s("x"), None, Some(3)).unwrap();
    assert_eq!(add.line_type, DiffLineType::Addition);
    assert_eq!(add.new_line_number, Some(3));
    let del = diff_line_from_origin('-', s("y"), Some(2), Some(9)).unwrap();
    assert_eq!(del.new_line_number, None);
    assert!(diff_line_from_origin('@', s("h"), None, None).is_none());
    let ctx = diff_line_from_origin(' ', s("z"), Some(1), Some(1)).unwrap();
    let hunk = DiffHunk { old_start: 1, old_lines: 2, new_start: 1, new_lines: 2, lines: vec![add.clone(), del, ctx, add] };
    let fd = file_diff_from_hunks(s("f"), FileStatus::Modified, vec![hunk]);
    assert_eq!(fd.additions, 2);
    assert_eq!(fd.deletions, 1);
}

#[test]
fn branch_trees_group_remotes_and_expand_the_local_section() {
    let remotes = vec![
        RemoteBranch { remote: s("origin"), name: s("main"), commit_hash: s("1") },
        RemoteBranch { remote: s("up"), name: s("dev"), commit_hash: s("2") },
        RemoteBranch { remote: s("origin"), name: s("dev"), commit_hash: s("3") },
    ];
    assert!(group_remote_branches(&vec![]).is_empty());
    let groups = group_remote_branches(&remotes);
    assert_eq!(groups.len(), 2);
    assert_eq!(groups[0].0, "origin");
    assert_eq!(groups[0].1.len(), 2);
    assert_eq!(groups[1].1[0].name, "dev");
    let local = vec![LocalBranch { name: s("main"), commit_hash: s("1"), is_current: true, upstream: None }];
    let tags = vec![Tag { name: s("v1"), commit_hash: s("1"), message: None }];
    let tree = build_branch_tree(&local, &remotes, &tags, s("main"));
    assert_eq!(tree.local_branches.len(), 1);
    assert_eq!(tree.tags[0].name, "v1");
    assert_eq!(tree.expanded_sections, vec![s("local")]);
    assert!(tree.selected_branch.is_none());
}

#[test]
fn changed_files_are_sorted_into_their_lists() {
    let files = vec![
        wd("c", WorkingDirStatus::Conflicted, true),
        wd("s", WorkingDirStatus::Modified, true),
        wd("n", WorkingDirStatus::Untracked, false),
        wd("u", WorkingDirStatus::Deleted, false),
    ];
    let cf = partition_changed_files(&files);
    assert_eq!(cf.conflicted.len(), 1);
    assert_eq!(cf.staged[0].path, "s");
    assert_eq!(cf.untracked[0].path, "n");
    assert_eq!(cf.unstaged[0].path, "u");
    assert_eq!(cf.conflicted.len() + cf.staged.len() + cf.untracked.len() + cf.unstaged.len(), files.len());
    assert!(!cf.is_commit_view);
    assert!(cf.selected_files.is_empty());
}

#[test]
fn checkout_steps() {
    assert!(matches!(
        plan_after_change_check(s("origin/dev"), true, true),
        CheckoutStep::Reply(AppMessage::ShowCheckoutWithChangesDialog { is_remote: true, .. })
    ));
    assert!(matches!(
        plan_after_change_check(s("origin/dev"), true, false),
        CheckoutStep::CheckLocalBranch { local_name, .. } if local_name == "dev"
    ));
    assert!(matches!(plan_after_change_check(s("dev"), false, false), CheckoutStep::Checkout { .. }));
    assert!(matches!(plan_after_local_check(s("origin/dev"), s("dev"), true), CheckoutStep::Checkout { branch_name } if branch_name == "dev"));
    assert!(matches!(
        plan_after_clearing(s("origin/dev"), true),
        CheckoutStep::Reply(AppMessage::CheckoutRemoteOverride { local_name, .. }) if local_name == "dev"
    ));
    assert!(matches!(
        reply_after_name_check(s("origin/dev"), s("dev"), true),
        AppMessage::ShowRemoteBranchConflictDialog { .. }
    ));
    assert_eq!(stash_message("main", "dev", "12:00"), "WIP: switching from main to dev - 12:00");
}

#[test]
fn loaded_file_contents_name_their_language_by_extension() {
    match file_content_message(s("src/lib.rs"), Some(s("fn main() {}")), None) {
        Ok(AppMessage::FileContentLoaded { language, content, .. }) => {
            assert_eq!(language, Some(s("rs")));
            assert_eq!(content, "fn main() {}");
        }
        other => panic!("unexpected {:?}", other.is_ok()),
    }
    match file_content_message(s("Makefile"), Some(s("all:")), None) {
        Ok(AppMessage::FileContentLoaded { language, .. }) => assert_eq!(language, None),
        _ => panic!("expected content"),
    }
    assert!(matches!(
        file_content_message(s("img.png"), None, Some(12)),
        Ok(AppMessage::BinaryFileDetected { size: 12, .. })
    ));
    assert_eq!(
        file_content_message(s("x"), None, None).err(),
        Some(s("Unexpected result from file content loading"))
    );
}

fn open() -> AppState {
    let mut state = AppState::default();
    state.current_repo =
        Some(RepoState::new(s("/home/me/repo"), s("main"), vec![], StatusSummary::default()));
    state
}

#[test]
fn opening_a_file_joins_it_onto_the_repository_path() {
    let mut state = open();
    match reduce(&mut state, AppMessage::OpenFileInEditorRequested(s("src/lib.rs"))) {
        Effect::OpenInEditor { full_path } => assert_eq!(full_path, "/home/me/repo/src/lib.rs"),
        other => panic!("unexpected {:?}", other),
    }
    match reduce(&mut state, AppMessage::OpenFileFolderRequested(s("src/lib.rs"))) {
        Effect::OpenFolder { full_path } => assert_eq!(full_path, "/home/me/repo/src"),
        other => panic!("unexpected {:?}", other),
    }
    let mut closed = AppState::default();
    assert!(matches!(
        reduce(&mut closed, AppMessage::OpenFileFolderRequested(s("a"))),
        Effect::Nothing
    ));
}

#[test]
fn committing_joins_summary_and_description() {
    let mut state = open();
    match reduce(
        &mut state,
        AppMessage::CommitChangesRequested { summary: s("Sum"), description: s("Desc"), amend: true, push: false },
    ) {
        Effect::CreateCommit { message, amend, push, .. } => {
            assert_eq!(message, "Sum\n\nDesc");
            assert!(amend);
            assert!(!push);
        }
        other => panic!("unexpected {:?}", other),
    }
    assert!(state.committing);
}

#[test]
fn batches_are_cut_into_chunks_of_five_hundred() {
    assert!(batch_chunks(0).is_empty());
    assert_eq!(batch_chunks(3), vec![(0, 3)]);
    assert_eq!(batch_chunks(500), vec![(0, 500)]);
    assert_eq!(batch_chunks(1201), vec![(0, 500), (500, 1000), (1000, 1201)]);
}

#[test]
fn fallback_addresses_use_the_host_or_localhost() {
    assert_eq!(fallback_email("ann", Some(s("box"))), "ann@box");
    assert_eq!(fallback_email("ann", None), "ann@localhost");
}
