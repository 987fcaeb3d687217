//! The user-interface logic: keyboard shortcuts, pane numbering, the panels' actions and
//! the messages they send.

use crabontree::git::{Commit, DiffLine, DiffLineType, WorkingDirFile, WorkingDirStatus};
use crabontree::message::AppMessage;
use crabontree::state::{
    BranchConflictDialog, BranchInfo, BranchTreeState, ChangedFilesState, CheckoutChangesDialog,
    CommitInfo, RepoState, WORKING_DIR_HASH,
};
use crabontree::git::StatusSummary;
use crabontree::ui::components::branch_conflict_dialog::{self, BranchConflictAction};
use crabontree::ui::components::checkout_changes_dialog::{self, CheckoutChangesAction};
use crabontree::ui::components::error_panel::{self, ErrorPanelAction};
use crabontree::ui::components::top_panel::{self, TopPanelAction};
use crabontree::ui::components::welcome_view::{self, WelcomeViewAction};
use crabontree::ui::keyboard::{self, handle_shortcuts, step_selection, KeyPresses, KeyboardAction};
use crabontree::ui::panes::branches::{self as branches_pane, BranchesAction};
use crabontree::ui::panes::changed_files::{self as files_pane, ChangedFilesAction};
use crabontree::ui::panes::commit_history::{self, CommitHistoryAction};
use crabontree::ui::panes::{
    loads_to_request, pane_from_index, pane_to_index, resolve_active_pane, toggle_plan,
    visible_panes, Pane, TogglePlan,
};
use crabontree::ui::theme::{builtin_theme_ids, builtin_theme_index};
use crabontree::ui::widgets::{
    line_prefix, row_interaction, shown_line_number, status_icon, FileContentView,
    FileRowInteraction,
};

fn s(x: &str) -> String {
    x.to_string()
}

fn commit(hash: &str) -> Commit {
    Commit {
        hash: s(hash),
        hash_short: s(&hash[..7]),
        author_name: s("A"),
        author_email: s("a@x"),
        author_date: 0,
        committer_name: s("A"),
        committer_email: s("a@x"),
        committer_date: 0,
        message: s("m"),
        message_summary: s("m"),
        parent_hashes: vec![],
    }
}

fn files() -> ChangedFilesState {
    ChangedFilesState {
        staged: vec![WorkingDirFile { path: s("s.rs"), status: WorkingDirStatus::Modified, is_staged: true }],
        unstaged: vec![WorkingDirFile { path: s("u.rs"), status: WorkingDirStatus::Modified, is_staged: false }],
        untracked: vec![WorkingDirFile { path: s("n.rs"), status: WorkingDirStatus::Untracked, is_staged: false }],
        conflicted: vec![],
        selected_file: None,
        selected_files: vec![],
        last_clicked_file: None,
        commit_message: String::new(),
        is_commit_view: false,
        commit_info: None,
        commit_summary: String::new(),
        commit_description: String::new(),
        amend_last_commit: false,
        push_after_commit: false,
    }
}

fn repo() -> RepoState {
    let mut r = RepoState::new(s("/r"), s("main"), vec![s("main")], StatusSummary::default());
    r.commits = vec![commit("1111111aaaa"), commit("2222222bbbb")];
    r.changed_files = Some(files());
    r
}

#[test]
fn text_focus_swallows_every_key() {
    let keys = KeyPresses { text_focused: true, num2: true, r: true, ..Default::default() };
    let (action, pane) = handle_shortcuts(&keys, 3, None);
    assert!(matches!(action, KeyboardAction::Idle));
    assert_eq!(pane, 3);
}

#[test]
fn number_keys_tab_and_arrows_choose_panes() {
    let (a, p) = handle_shortcuts(&KeyPresses { num3: true, ..Default::default() }, 0, None);
    assert!(matches!(a, KeyboardAction::SetActivePane));
    assert_eq!(p, 2);
    let (_, p) = handle_shortcuts(&KeyPresses { tab: true, ..Default::default() }, 3, None);
    assert_eq!(p, 0);
    let (_, p) = handle_shortcuts(&KeyPresses { tab: true, shift: true, ..Default::default() }, 0, None);
    assert_eq!(p, 3);
    let (_, p) = handle_shortcuts(&KeyPresses { arrow_right: true, ..Default::default() }, 1, None);
    assert_eq!(p, 2);
    let (_, p) = handle_shortcuts(&KeyPresses { arrow_left: true, ..Default::default() }, 1, None);
    assert_eq!(p, 0);
    let (_, p) = handle_shortcuts(&KeyPresses { tab: true, ..Default::default() }, usize::MAX, None);
    assert_eq!(p, 0);
}

#[test]
fn tab_then_shift_tab_returns_to_the_pane() {
    for start in 0..4 {
        let (_, p) = handle_shortcuts(&KeyPresses { tab: true, ..Default::default() }, start, None);
        let (_, back) =
            handle_shortcuts(&KeyPresses { tab: true, shift: true, ..Default::default() }, p, None);
        assert_eq!(back, start);
    }
}

#[test]
fn refresh_and_help_keys() {
    let (a, _) = handle_shortcuts(&KeyPresses { r: true, ..Default::default() }, 0, None);
    assert!(matches!(a, KeyboardAction::RefreshRepo));
    let (a, _) = handle_shortcuts(&KeyPresses { r: true, ctrl: true, ..Default::default() }, 0, None);
    assert!(matches!(a, KeyboardAction::Idle));
    let (a, _) = handle_shortcuts(&KeyPresses { slash: true, shift: true, ..Default::default() }, 0, None);
    assert!(matches!(a, KeyboardAction::ToggleHelp));
    let (a, _) = handle_shortcuts(&KeyPresses { question_mark: true, ..Default::default() }, 0, None);
    assert!(matches!(a, KeyboardAction::ToggleHelp));
}

#[test]
fn arrows_walk_the_commit_list_from_the_working_directory() {
    let mut r = repo();
    let down = KeyPresses { arrow_down: true, ..Default::default() };
    let up = KeyPresses { arrow_up: true, ..Default::default() };
    let (a, _) = handle_shortcuts(&down, 0, Some(&r));
    assert!(matches!(&a, KeyboardAction::SelectCommit(h) if h == WORKING_DIR_HASH));
    r.selected_commit = Some(s(WORKING_DIR_HASH));
    let (a, _) = handle_shortcuts(&down, 0, Some(&r));
    assert!(matches!(&a, KeyboardAction::SelectCommit(h) if h == "1111111aaaa"));
    r.selected_commit = Some(s("2222222bbbb"));
    let (a, _) = handle_shortcuts(&down, 0, Some(&r));
    assert!(matches!(&a, KeyboardAction::SelectCommit(h) if h == "2222222bbbb"));
    let (a, _) = handle_shortcuts(&up, 0, Some(&r));
    assert!(matches!(&a, KeyboardAction::SelectCommit(h) if h == "1111111aaaa"));
    let (a, p) = handle_shortcuts(&down, 1, Some(&r));
    assert!(matches!(a, KeyboardAction::Idle));
    assert_eq!(p, 1);
}

#[test]
fn arrows_walk_the_changed_files_in_list_order() {
    let mut r = repo();
    let down = KeyPresses { arrow_down: true, ..Default::default() };
    let (a, _) = handle_shortcuts(&down, 2, Some(&r));
    assert!(matches!(&a, KeyboardAction::SelectFile(p) if p == "s.rs"));
    r.changed_files.as_mut().unwrap().selected_file = Some(s("u.rs"));
    let (a, _) = handle_shortcuts(&down, 2, Some(&r));
    assert!(matches!(&a, KeyboardAction::SelectFile(p) if p == "n.rs"));
    r.changed_files = None;
    let (a, _) = handle_shortcuts(&down, 2, Some(&r));
    assert!(matches!(a, KeyboardAction::Idle));
}

#[test]
fn step_selection_down_then_up_comes_back() {
    let items = vec![s("a"), s("b"), s("c")];
    assert_eq!(step_selection(&items, None, true), Some(s("a")));
    assert_eq!(step_selection(&items, None, false), Some(s("c")));
    assert_eq!(step_selection(&items, Some(&s("zz")), true), Some(s("a")));
    assert_eq!(step_selection(&items, Some(&s("c")), true), Some(s("c")));
    assert_eq!(step_selection(&items, Some(&s("a")), false), Some(s("a")));
    for x in ["a", "b"] {
        let next = step_selection(&items, Some(&s(x)), true).unwrap();
        assert_eq!(step_selection(&items, Some(&next), false), Some(s(x)));
    }
    assert_eq!(step_selection(&Vec::new(), None, true), None);
}

#[test]
fn keyboard_actions_send_their_messages() {
    assert!(keyboard::action_to_message(KeyboardAction::SetActivePane).is_none());
    assert!(keyboard::action_to_message(KeyboardAction::ToggleHelp).is_none());
    assert!(matches!(keyboard::action_to_message(KeyboardAction::RefreshRepo), Some(AppMessage::RefreshRepo)));
    assert!(matches!(
        keyboard::action_to_message(KeyboardAction::SelectFile(s("x"))),
        Some(AppMessage::ChangedFileSelected(p)) if p == "x"
    ));
}

#[test]
fn panes_are_numbered_and_back() {
    for p in [Pane::CommitHistory, Pane::Branches, Pane::ChangedFiles, Pane::DiffViewer] {
        assert_eq!(pane_from_index(pane_to_index(p)), p);
    }
    assert_eq!(pane_to_index(Pane::ChangedFiles), 2);
    assert_eq!(pane_from_index(7), Pane::DiffViewer);
    assert_eq!(Pane::Branches.title(), "Branches");
}

#[test]
fn the_active_pane_falls_back_to_the_lowest_visible() {
    assert_eq!(resolve_active_pane(2, &vec![Pane::DiffViewer, Pane::Branches]), 1);
    assert_eq!(resolve_active_pane(3, &vec![Pane::DiffViewer, Pane::Branches]), 3);
    assert_eq!(resolve_active_pane(2, &vec![]), 2);
    assert_eq!(
        visible_panes(&vec![Pane::Branches, Pane::DiffViewer, Pane::Branches]),
        vec![Pane::Branches, Pane::DiffViewer]
    );
}

#[test]
fn toggling_panes_plans_the_dock_change() {
    assert_eq!(toggle_plan(true, false, true), TogglePlan::SaveAndRemove);
    assert_eq!(toggle_plan(false, true, true), TogglePlan::Leave);
    assert_eq!(toggle_plan(false, false, true), TogglePlan::RestoreSaved);
    assert_eq!(toggle_plan(false, false, false), TogglePlan::AddToRoot);
}

#[test]
fn a_repository_view_asks_for_what_it_lacks() {
    let mut r = repo();
    r.changed_files = None;
    let m = loads_to_request(&r);
    assert_eq!(m.len(), 2);
    assert!(matches!(m[0], AppMessage::LoadBranchTreeRequested));
    assert!(matches!(&m[1], AppMessage::CommitSelected(h) if h == WORKING_DIR_HASH));
    assert!(loads_to_request(&repo()).len() == 1);
}

#[test]
fn toolbar_dialogs_and_welcome_view_send_their_messages() {
    assert!(matches!(
        top_panel::action_to_message(&TopPanelAction::OpenRepo(s("/p"))),
        Some(AppMessage::OpenRepoRequested(p)) if p == "/p"
    ));
    assert!(top_panel::action_to_message(&TopPanelAction::TogglePane(Pane::Branches)).is_none());
    assert!(top_panel::action_to_message(&TopPanelAction::SetTheme(s("dark"))).is_none());
    assert_eq!(top_panel::toggle_label(Pane::Branches, &vec![Pane::Branches]), "★ Branches");
    assert_eq!(top_panel::toggle_label(Pane::DiffViewer, &vec![Pane::Branches]), "☆ Diff");
    assert_eq!(top_panel::theme_choices()[3].0, "visual_studio");
    assert!(matches!(error_panel::action_to_message(ErrorPanelAction::ClearError), Some(AppMessage::ClearError)));
    assert!(error_panel::action_to_message(ErrorPanelAction::Idle).is_none());
    assert!(matches!(
        welcome_view::action_to_message(WelcomeViewAction::OpenRepo(s("/q"))),
        Some(AppMessage::OpenRepoRequested(p)) if p == "/q"
    ));

    let dialog = CheckoutChangesDialog { branch_name: s("origin/dev"), is_remote: true };
    assert!(matches!(
        checkout_changes_dialog::action_to_message(CheckoutChangesAction::Stash, &dialog),
        Some(AppMessage::CheckoutWithStash { branch_name, is_remote: true }) if branch_name == "origin/dev"
    ));
    assert!(checkout_changes_dialog::action_to_message(CheckoutChangesAction::Cancel, &dialog).is_none());
    assert_eq!(checkout_changes_dialog::branch_kind(&dialog), "remote");

    let conflict = BranchConflictDialog {
        remote_branch: s("origin/dev"),
        local_name: s("dev"),
        new_name_input: String::new(),
    };
    assert!(matches!(branch_conflict_dialog::rename_action(&conflict), BranchConflictAction::Idle));
    assert!(matches!(
        branch_conflict_dialog::action_to_message(BranchConflictAction::Override, &conflict),
        Some(AppMessage::CheckoutRemoteOverride { remote_branch, local_name })
            if remote_branch == "origin/dev" && local_name == "dev"
    ));
    assert!(matches!(
        branch_conflict_dialog::action_to_message(BranchConflictAction::Rename(s("dev2")), &conflict),
        Some(AppMessage::CheckoutRemoteRename { new_local_name, .. }) if new_local_name == "dev2"
    ));
}

fn tree() -> BranchTreeState {
    BranchTreeState {
        local_branches: vec![BranchInfo { name: s("main"), commit_hash: s("c"), is_current: true, upstream: None }],
        remote_branches: vec![(
            s("origin"),
            vec![
                BranchInfo { name: s("main"), commit_hash: s("c"), is_current: false, upstream: None },
                BranchInfo { name: s("dev"), commit_hash: s("d"), is_current: false, upstream: None },
            ],
        )],
        tags: vec![],
        current_branch: s("main"),
        expanded_sections: vec![],
        selected_branch: None,
    }
}

#[test]
fn enter_checks_out_the_selected_branch_unless_it_is_current() {
    let mut t = tree();
    assert!(matches!(branches_pane::enter_key_action(&t), BranchesAction::Idle));
    t.selected_branch = Some(s("main"));
    assert!(matches!(branches_pane::enter_key_action(&t), BranchesAction::Idle));
    t.selected_branch = Some(s("origin/main"));
    assert!(matches!(
        branches_pane::enter_key_action(&t),
        BranchesAction::CheckoutBranch { name, is_remote: true } if name == "origin/main"
    ));
    assert_eq!(branches_pane::branch_count(&t), 3);
}

#[test]
fn branch_rows_select_on_click_and_check_out_on_double_click() {
    let t = tree();
    let local = &t.local_branches[0];
    assert!(matches!(
        branches_pane::local_row_action(local, "main", true, true),
        BranchesAction::SelectBranch { is_remote: false, .. }
    ));
    let remote = &t.remote_branches[0].1[1];
    assert!(matches!(
        branches_pane::remote_row_action("origin", remote, false, true),
        BranchesAction::CheckoutBranch { name, is_remote: true } if name == "origin/dev"
    ));
    assert!(matches!(
        branches_pane::action_to_message(BranchesAction::SelectBranch { name: s("x"), is_remote: false }),
        Some(AppMessage::BranchSelected { is_remote: false, .. })
    ));
}

#[test]
fn commit_rows_toggle_the_selection() {
    assert!(matches!(commit_history::row_click_action("abc", true), CommitHistoryAction::DeselectCommit));
    assert!(matches!(
        commit_history::working_dir_click_action(None),
        CommitHistoryAction::SelectCommit(h) if h == WORKING_DIR_HASH
    ));
    assert_eq!(commit_history::working_dir_label(true), "0000000 - Working Directory *");
    assert!(matches!(
        commit_history::action_to_message(CommitHistoryAction::LoadHistory),
        Some(AppMessage::LoadCommitHistoryRequested)
    ));
}

#[test]
fn enter_stages_or_unstages_the_selected_files() {
    let mut f = files();
    assert!(matches!(files_pane::enter_key_action(&f), ChangedFilesAction::Idle));
    f.selected_files = vec![s("s.rs"), s("n.rs")];
    assert!(matches!(files_pane::enter_key_action(&f), ChangedFilesAction::StageSelectedFiles));
    f.selected_files = vec![s("s.rs")];
    assert!(matches!(files_pane::enter_key_action(&f), ChangedFilesAction::UnstageSelectedFiles));
    f.is_commit_view = true;
    assert!(matches!(files_pane::enter_key_action(&f), ChangedFilesAction::Idle));
}

#[test]
fn file_rows_and_the_commit_panel() {
    let f = files();
    let staged = &f.staged[0];
    assert!(matches!(
        files_pane::row_action(staged, FileRowInteraction::DoubleClick, false),
        ChangedFilesAction::ToggleStage { is_staged: true, .. }
    ));
    assert!(matches!(files_pane::row_action(staged, FileRowInteraction::DoubleClick, true), ChangedFilesAction::Idle));
    assert!(matches!(
        files_pane::row_action(staged, FileRowInteraction::SingleClick { ctrl: false, shift: true }, false),
        ChangedFilesAction::SelectFileWithModifiers { shift: true, .. }
    ));
    assert!(matches!(
        files_pane::action_to_message(ChangedFilesAction::ToggleStage { path: s("s.rs"), is_staged: true }),
        Some(AppMessage::UnstageFileRequested(p)) if p == "s.rs"
    ));
    let mut g = files();
    assert!(!files_pane::commit_enabled(&g, false));
    g.commit_summary = s("x");
    assert!(files_pane::commit_enabled(&g, false));
    assert!(!files_pane::commit_enabled(&g, true));
    let merged = files_pane::merge_actions(ChangedFilesAction::Idle, ChangedFilesAction::StageSelectedFiles, ChangedFilesAction::UnstageSelectedFiles);
    assert!(matches!(merged, ChangedFilesAction::StageSelectedFiles));
}

#[test]
fn commit_panel_lines() {
    let info = CommitInfo {
        hash: s("h"),
        author_name: s("Ann"),
        author_email: s("ann@x"),
        author_date: 0,
        parent_hashes: vec![s("p1"), s("p2")],
        branches: vec![s("main"), s("dev")],
        tags: vec![],
    };
    assert_eq!(files_pane::author_line(&info), "Ann <ann@x>");
    assert_eq!(files_pane::parents_line(&info), Some(s("p1 p2")));
    assert_eq!(files_pane::containment_line(&info.branches, "branch", "branches"), "Contained in branches: main, dev");
    assert_eq!(files_pane::containment_line(&info.tags, "tag", "tags"), "Contained in no tag");
}

#[test]
fn widgets_show_icons_prefixes_and_numbers() {
    assert_eq!(status_icon(&WorkingDirStatus::Conflicted), "!");
    assert_eq!(line_prefix(DiffLineType::Deletion), "-");
    let line = DiffLine { line_type: DiffLineType::Addition, content: s("x"), old_line_number: None, new_line_number: Some(4) };
    assert_eq!(shown_line_number(&line), Some(4));
    assert_eq!(row_interaction(true, true, true, false), FileRowInteraction::DoubleClick);
    assert_eq!(row_interaction(false, true, true, false), FileRowInteraction::SingleClick { ctrl: true, shift: false });
    let view = FileContentView::new("a.rs", "");
    assert!(view.is_blank());
}

#[test]
fn test_theme_by_name() {
    for name in builtin_theme_ids() {
        assert!(builtin_theme_index(name).is_some(), "missing built-in theme: {name}");
    }
    assert!(builtin_theme_index("invalid").is_none());
}

#[test]
fn built_in_themes_are_found_by_identifier() {
    let ids = builtin_theme_ids();
    assert_eq!(ids.len(), 7);
    for (i, id) in ids.iter().enumerate() {
        assert_eq!(builtin_theme_index(id), Some(i));
    }
    assert_eq!(builtin_theme_index("invalid"), None);
}
