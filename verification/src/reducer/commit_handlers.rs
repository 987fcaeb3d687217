//! Commit history, commit selection, staging requests and commit creation.
use vstd::prelude::*;

use crate::config::{remove_draft, spec_without_draft};
use crate::effect::Effect;
use crate::message::AppMessage;
use crate::reducer::helpers::commit_view::{
    build_commit_info, build_commit_view_changed_files, commit_message, is_commit_info_of,
    is_commit_view_files, spec_commit_message,
};
use crate::state::{
    is_working_dir_hash, AppState, ChangedFilesState, FileViewState, RepoState, StagingProgress,
    WORKING_DIR_HASH,
};
use crate::text::{concat_str, is_blank, spec_is_blank};

verus! {

/// The open repository with its changed-files state (when there is one) replaced by `f` of it.
pub open spec fn update_changed_files(
    repo: Option<RepoState>,
    f: spec_fn(ChangedFilesState) -> ChangedFilesState,
) -> Option<RepoState> {
    match repo {
        Some(r) => Some(
            RepoState {
                changed_files: match r.changed_files {
                    Some(cf) => Some(f(cf)),
                    None => None,
                },
                ..r
            },
        ),
        None => None,
    }
}

/// The open repository with `f` applied to it.
pub open spec fn update_repo(repo: Option<RepoState>, f: spec_fn(RepoState) -> RepoState) -> Option<
    RepoState,
> {
    match repo {
        Some(r) => Some(f(r)),
        None => None,
    }
}

/// The message a commit request with a summary and a description commits with: the
/// summary alone when the description is empty, else both separated by a blank line.
pub open spec fn spec_full_message(summary: Seq<char>, description: Seq<char>) -> Seq<char> {
    if description.len() == 0 {
        summary
    } else {
        summary + "\n\n"@ + description
    }
}

/// The state of the changed-files pane after a commit: commit panel emptied, amend
/// switched off, nothing selected.
pub open spec fn is_reset_after_commit(new: ChangedFilesState, old: ChangedFilesState) -> bool {
    &&& new.commit_summary@.len() == 0
    &&& new.commit_description@.len() == 0
    &&& new.selected_files@.len() == 0
    &&& new == ChangedFilesState {
        commit_summary: new.commit_summary,
        commit_description: new.commit_description,
        amend_last_commit: false,
        selected_file: None,
        selected_files: new.selected_files,
        ..old
    }
}

/// What the commit messages do to the state, and the effect they ask for.
pub open spec fn commit_step(old: AppState, msg: AppMessage, new: AppState, eff: Effect) -> bool {
    match msg {
        AppMessage::LoadCommitHistoryRequested => {
            &&& new == AppState { loading: true, ..old }
            &&& eff == match old.current_repo {
                Some(r) => Effect::LoadCommitHistory(r.path),
                None => Effect::Nothing,
            }
        },
        AppMessage::CommitHistoryLoaded(commits) => {
            &&& new == AppState {
                loading: false,
                current_repo: update_repo(old.current_repo, |r: RepoState| RepoState { commits, ..r }),
                ..old
            }
            &&& eff == Effect::Nothing
        },
        AppMessage::CommitSelected(hash) => match old.current_repo {
            Some(r) => {
                let selected = RepoState {
                    selected_commit: Some(hash),
                    commit_diff: None,
                    file_view: FileViewState::Empty,
                    ..r
                };
                if hash@ == WORKING_DIR_HASH@ {
                    &&& new == AppState { current_repo: Some(selected), ..old }
                    &&& eff == Effect::LoadChangedFiles(r.path)
                } else {
                    &&& new == AppState { current_repo: Some(selected), loading: true, ..old }
                    &&& eff == Effect::LoadCommitDiff { repo_path: r.path, commit_hash: hash }
                }
            },
            None => new == old && eff == Effect::Nothing,
        },
        AppMessage::CommitDeselected => {
            &&& new == AppState {
                current_repo: update_repo(
                    old.current_repo,
                    |r: RepoState|
                        RepoState {
                            selected_commit: None,
                            commit_diff: None,
                            changed_files: None,
                            ..r
                        },
                ),
                ..old
            }
            &&& eff == Effect::Nothing
        },
        AppMessage::CommitDiffLoaded { commit_hash, diff } => {
            &&& eff == Effect::Nothing
            &&& match old.current_repo {
                Some(r) => if r.selected_commit matches Some(h) && h@ == commit_hash@ {
                    &&& new.current_repo matches Some(nr) && nr.changed_files matches Some(cf)
                        && is_commit_view_files(
                        cf,
                        diff@,
                        spec_commit_message(r.commits@, commit_hash@),
                        cf.commit_info,
                    ) && is_commit_info_of(cf.commit_info, r.commits@, r.branch_tree, commit_hash@)
                        && new == AppState {
                        loading: false,
                        current_repo: Some(
                            RepoState {
                                commit_diff: Some(diff),
                                changed_files: nr.changed_files,
                                ..r
                            },
                        ),
                        ..old
                    }
                } else {
                    new == AppState { loading: false, ..old }
                },
                None => new == AppState { loading: false, ..old },
            }
        },
        AppMessage::StageFileRequested(file_path) => match old.current_repo {
            Some(r) => new == AppState { loading: true, ..old } && eff == Effect::StageFile {
                repo_path: r.path,
                file_path,
            },
            None => new == old && eff == Effect::Nothing,
        },
        AppMessage::UnstageFileRequested(file_path) => match old.current_repo {
            Some(r) => new == AppState { loading: true, ..old } && eff == Effect::UnstageFile {
                repo_path: r.path,
                file_path,
            },
            None => new == old && eff == Effect::Nothing,
        },
        AppMessage::StageAllRequested => match old.current_repo {
            Some(r) => new == AppState { loading: true, ..old } && eff == Effect::StageAll(r.path),
            None => new == old && eff == Effect::Nothing,
        },
        AppMessage::UnstageAllRequested => match old.current_repo {
            Some(r) => new == AppState { loading: true, ..old } && eff == Effect::UnstageAll(
                r.path,
            ),
            None => new == old && eff == Effect::Nothing,
        },
        AppMessage::StagingCompleted => {
            &&& new == AppState { loading: false, staging_progress: None, ..old }
            &&& match old.current_repo {
                Some(r) => eff matches Effect::Batch(v) && v@ == seq![
                    Effect::LoadWorkingDirStatus(r.path),
                    Effect::LoadChangedFiles(r.path),
                    Effect::RefreshRepo(r.path),
                ],
                None => eff == Effect::Nothing,
            }
        },
        AppMessage::StagingProgress { current, total, operation } => {
            &&& new == AppState {
                staging_progress: Some(StagingProgress { current, total, operation }),
                ..old
            }
            &&& eff == Effect::Nothing
        },
        AppMessage::CommitMessageUpdated(message) => {
            &&& new == AppState {
                current_repo: update_repo(
                    old.current_repo,
                    |r: RepoState| RepoState { commit_message: message, ..r },
                ),
                ..old
            }
            &&& eff == Effect::Nothing
        },
        AppMessage::CreateCommitRequested => match old.current_repo {
            Some(r) => if spec_is_blank(r.commit_message@) {
                &&& new.error matches Some(e) && e@ == "Commit message cannot be empty"@
                &&& new == AppState { error: new.error, ..old }
                &&& eff == Effect::Nothing
            } else {
                &&& new == AppState { loading: true, ..old }
                &&& eff == Effect::CreateCommit {
                    repo_path: r.path,
                    message: r.commit_message,
                    amend: false,
                    push: false,
                }
            },
            None => new == old && eff == Effect::Nothing,
        },
        AppMessage::CommitCreated { hash, message, push_error } => {
            &&& new.loading == false
            &&& new.committing == false
            &&& match push_error {
                Some(err) => new.error matches Some(e) && e@ == "Commit created but push failed: "@
                    + err@,
                None => new.error == old.error,
            }
            &&& match old.current_repo {
                Some(r) => {
                    &&& new.current_repo matches Some(nr) && nr.commit_message@.len() == 0 && nr
                        == RepoState {
                        commit_message: nr.commit_message,
                        file_view: FileViewState::Empty,
                        changed_files: nr.changed_files,
                        ..r
                    } && match r.changed_files {
                        Some(cf) => nr.changed_files matches Some(ncf) && is_reset_after_commit(
                            ncf,
                            cf,
                        ),
                        None => nr.changed_files is None,
                    }
                    &&& new.config.commit_drafts@ == spec_without_draft(
                        old.config.commit_drafts@,
                        r.path@,
                    )
                    &&& new == AppState {
                        loading: false,
                        committing: false,
                        error: new.error,
                        current_repo: new.current_repo,
                        config: crate::config::AppConfig {
                            commit_drafts: new.config.commit_drafts,
                            ..old.config
                        },
                        ..old
                    }
                    &&& eff matches Effect::Batch(v) && v@ == seq![
                        Effect::SaveConfig,
                        Effect::LoadCommitHistory(r.path),
                        Effect::LoadWorkingDirStatus(r.path),
                        Effect::LoadChangedFiles(r.path),
                        Effect::RefreshRepo(r.path),
                    ]
                },
                None => {
                    &&& new == AppState { loading: false, committing: false, error: new.error, ..old }
                    &&& eff == Effect::Nothing
                },
            }
        },
        AppMessage::AuthorIdentityLoaded { name, email } => {
            &&& new == AppState {
                current_repo: update_repo(
                    old.current_repo,
                    |r: RepoState| RepoState { author_name: name, author_email: email, ..r },
                ),
                ..old
            }
            &&& eff == Effect::Nothing
        },
        AppMessage::CommitSummaryUpdated(summary) => {
            &&& new == AppState {
                current_repo: update_changed_files(
                    old.current_repo,
                    |cf: ChangedFilesState| ChangedFilesState { commit_summary: summary, ..cf },
                ),
                ..old
            }
            &&& eff == Effect::Nothing
        },
        AppMessage::CommitDescriptionUpdated(description) => {
            &&& new == AppState {
                current_repo: update_changed_files(
                    old.current_repo,
                    |cf: ChangedFilesState| ChangedFilesState { commit_description: description, ..cf },
                ),
                ..old
            }
            &&& eff == Effect::Nothing
        },
        AppMessage::AmendLastCommitToggled(amend) => {
            &&& new == AppState {
                current_repo: update_changed_files(
                    old.current_repo,
                    |cf: ChangedFilesState| ChangedFilesState { amend_last_commit: amend, ..cf },
                ),
                ..old
            }
            &&& eff == Effect::Nothing
        },
        AppMessage::PushAfterCommitToggled(push) => {
            &&& new == AppState {
                current_repo: update_changed_files(
                    old.current_repo,
                    |cf: ChangedFilesState| ChangedFilesState { push_after_commit: push, ..cf },
                ),
                ..old
            }
            &&& eff == Effect::Nothing
        },
        AppMessage::CommitChangesRequested { summary, description, amend, push } =>
            match old.current_repo {
            Some(r) => {
                &&& new == AppState { loading: true, committing: true, ..old }
                &&& eff matches Effect::CreateCommit { repo_path, message, amend: a, push: p }
                    && repo_path == r.path && message@ == spec_full_message(summary@, description@)
                    && a == amend && p == push
            },
            None => new == old && eff == Effect::Nothing,
        },
        _ => true,
    }
}

/// Whether the message is one the commit handler takes.
pub open spec fn is_commit_message(msg: AppMessage) -> bool {
    match msg {
        AppMessage::LoadCommitHistoryRequested | AppMessage::CommitHistoryLoaded(_)
        | AppMessage::CommitSelected(_) | AppMessage::CommitDeselected
        | AppMessage::CommitDiffLoaded { .. } | AppMessage::StageFileRequested(_)
        | AppMessage::UnstageFileRequested(_) | AppMessage::StageAllRequested
        | AppMessage::UnstageAllRequested | AppMessage::StagingCompleted
        | AppMessage::StagingProgress { .. } | AppMessage::CommitMessageUpdated(_)
        | AppMessage::CreateCommitRequested | AppMessage::CommitCreated { .. }
        | AppMessage::AuthorIdentityLoaded { .. } | AppMessage::CommitSummaryUpdated(_)
        | AppMessage::CommitDescriptionUpdated(_) | AppMessage::AmendLastCommitToggled(_)
        | AppMessage::PushAfterCommitToggled(_) | AppMessage::CommitChangesRequested { .. } => true,
        _ => false,
    }
}

pub fn handle(state: &mut AppState, msg: AppMessage) -> (eff: Effect)
    requires
        is_commit_message(msg),
        old(state).wf(),
    ensures
        commit_step(*old(state), msg, *final(state), eff),
        final(state).wf(),
{
    match msg {
        AppMessage::LoadCommitHistoryRequested => {
            state.loading = true;
            if let Some(repo) = &state.current_repo {
                Effect::LoadCommitHistory(repo.path.clone())
            } else {
                Effect::Nothing
            }
        },
        AppMessage::CommitHistoryLoaded(commits) => {
            state.loading = false;
            if let Some(repo) = &mut state.current_repo {
                repo.commits = commits;
            }
            Effect::Nothing
        },
        AppMessage::CommitSelected(hash) => {
            if let Some(repo) = &mut state.current_repo {
                repo.selected_commit = Some(hash.clone());
                repo.commit_diff = None;
                repo.file_view = FileViewState::Empty;
                if is_working_dir_hash(hash.as_str()) {
                    Effect::LoadChangedFiles(repo.path.clone())
                } else {
                    let path = repo.path.clone();
                    state.loading = true;
                    Effect::LoadCommitDiff { repo_path: path, commit_hash: hash }
                }
            } else {
                Effect::Nothing
            }
        },
        AppMessage::CommitDeselected => {
            if let Some(repo) = &mut state.current_repo {
                repo.selected_commit = None;
                repo.commit_diff = None;
                repo.changed_files = None;
            }
            Effect::Nothing
        },
        AppMessage::CommitDiffLoaded { commit_hash, diff } => {
            state.loading = false;
            if let Some(repo) = &mut state.current_repo {
                let matches = match &repo.selected_commit {
                    Some(h) => *h == commit_hash,
                    None => false,
                };
                if matches {
                    let message = commit_message(&repo.commits, commit_hash.as_str());
                    let info = build_commit_info(
                        &repo.commits,
                        repo.branch_tree.as_ref(),
                        commit_hash.as_str(),
                    );
                    let files = build_commit_view_changed_files(&diff, message, info);
                    repo.commit_diff = Some(diff);
                    repo.changed_files = Some(files);
                }
            }
            Effect::Nothing
        },
        AppMessage::StageFileRequested(file_path) => {
            if let Some(repo) = &state.current_repo {
                let repo_path = repo.path.clone();
                state.loading = true;
                Effect::StageFile { repo_path, file_path }
            } else {
                Effect::Nothing
            }
        },
        AppMessage::UnstageFileRequested(file_path) => {
            if let Some(repo) = &state.current_repo {
                let repo_path = repo.path.clone();
                state.loading = true;
                Effect::UnstageFile { repo_path, file_path }
            } else {
                Effect::Nothing
            }
        },
        AppMessage::StageAllRequested => {
            if let Some(repo) = &state.current_repo {
                let repo_path = repo.path.clone();
                state.loading = true;
                Effect::StageAll(repo_path)
            } else {
                Effect::Nothing
            }
        },
        AppMessage::UnstageAllRequested => {
            if let Some(repo) = &state.current_repo {
                let repo_path = repo.path.clone();
                state.loading = true;
                Effect::UnstageAll(repo_path)
            } else {
                Effect::Nothing
            }
        },
        AppMessage::StagingCompleted => {
            state.loading = false;
            state.staging_progress = None;
            if let Some(repo) = &state.current_repo {
                let mut effects: Vec<Effect> = Vec::new();
                effects.push(Effect::LoadWorkingDirStatus(repo.path.clone()));
                effects.push(Effect::LoadChangedFiles(repo.path.clone()));
                effects.push(Effect::RefreshRepo(repo.path.clone()));
                assert(effects@ =~= seq![
                    Effect::LoadWorkingDirStatus(repo.path),
                    Effect::LoadChangedFiles(repo.path),
                    Effect::RefreshRepo(repo.path),
                ]);
                Effect::Batch(effects)
            } else {
                Effect::Nothing
            }
        },
        AppMessage::StagingProgress { current, total, operation } => {
            state.staging_progress = Some(StagingProgress { current, total, operation });
            Effect::Nothing
        },
        AppMessage::CommitMessageUpdated(message) => {
            if let Some(repo) = &mut state.current_repo {
                repo.commit_message = message;
            }
            Effect::Nothing
        },
        AppMessage::CreateCommitRequested => {
            if let Some(repo) = &state.current_repo {
                if is_blank(repo.commit_message.as_str()) {
                    state.error = Some("Commit message cannot be empty".to_owned());
                    Effect::Nothing
                } else {
                    let repo_path = repo.path.clone();
                    let message = repo.commit_message.clone();
                    state.loading = true;
                    Effect::CreateCommit { repo_path, message, amend: false, push: false }
                }
            } else {
                Effect::Nothing
            }
        },
        AppMessage::CommitCreated { hash, message, push_error } => {
            state.loading = false;
            state.committing = false;
            if let Some(err) = push_error {
                state.error = Some(concat_str("Commit created but push failed: ", err.as_str()));
            }
            if let Some(repo) = &mut state.current_repo {
                repo.commit_message = String::new();
                repo.file_view = FileViewState::Empty;
                if let Some(changed_files) = &mut repo.changed_files {
                    changed_files.commit_summary = String::new();
                    changed_files.commit_description = String::new();
                    changed_files.amend_last_commit = false;
                    changed_files.selected_file = None;
                    changed_files.selected_files = Vec::new();
                }
                let repo_key = repo.path.clone();
                remove_draft(&mut state.config.commit_drafts, &repo_key);
                let mut effects: Vec<Effect> = Vec::new();
                effects.push(Effect::SaveConfig);
                effects.push(Effect::LoadCommitHistory(repo.path.clone()));
                effects.push(Effect::LoadWorkingDirStatus(repo.path.clone()));
                effects.push(Effect::LoadChangedFiles(repo.path.clone()));
                effects.push(Effect::RefreshRepo(repo.path.clone()));
                assert(effects@ =~= seq![
                    Effect::SaveConfig,
                    Effect::LoadCommitHistory(repo.path),
                    Effect::LoadWorkingDirStatus(repo.path),
                    Effect::LoadChangedFiles(repo.path),
                    Effect::RefreshRepo(repo.path),
                ]);
                Effect::Batch(effects)
            } else {
                Effect::Nothing
            }
        },
        AppMessage::AuthorIdentityLoaded { name, email } => {
            if let Some(repo) = &mut state.current_repo {
                repo.author_name = name;
                repo.author_email = email;
            }
            Effect::Nothing
        },
        AppMessage::CommitSummaryUpdated(summary) => {
            if let Some(repo) = &mut state.current_repo {
                if let Some(changed_files) = &mut repo.changed_files {
                    changed_files.commit_summary = summary;
                }
            }
            Effect::Nothing
        },
        AppMessage::CommitDescriptionUpdated(description) => {
            if let Some(repo) = &mut state.current_repo {
                if let Some(changed_files) = &mut repo.changed_files {
                    changed_files.commit_description = description;
                }
            }
            Effect::Nothing
        },
        AppMessage::AmendLastCommitToggled(amend) => {
            if let Some(repo) = &mut state.current_repo {
                if let Some(changed_files) = &mut repo.changed_files {
                    changed_files.amend_last_commit = amend;
                }
            }
            Effect::Nothing
        },
        AppMessage::PushAfterCommitToggled(push) => {
            if let Some(repo) = &mut state.current_repo {
                if let Some(changed_files) = &mut repo.changed_files {
                    changed_files.push_after_commit = push;
                }
            }
            Effect::Nothing
        },
        AppMessage::CommitChangesRequested { summary, description, amend, push } => {
            if let Some(repo) = &state.current_repo {
                let repo_path = repo.path.clone();
                state.loading = true;
                state.committing = true;
                let full_message = if description.unicode_len() == 0 {
                    summary
                } else {
                    let head = concat_str(summary.as_str(), "\n\n");
                    concat_str(head.as_str(), description.as_str())
                };
                Effect::CreateCommit { repo_path, message: full_message, amend, push }
            } else {
                Effect::Nothing
            }
        },
        _ => Effect::Nothing,
    }
}

} // verus!
