//! Opening, closing and refreshing the repository; errors; working directory status.
use vstd::prelude::*;

use crate::effect::Effect;
use crate::message::AppMessage;
use crate::reducer::recent::{remember_repo, spec_remember_repo};
use crate::state::{AppState, RepoState};

verus! {

/// What the repository messages do to the state, and the effect they ask for.
pub open spec fn repo_step(old: AppState, msg: AppMessage, new: AppState, eff: Effect) -> bool {
    match msg {
        AppMessage::OpenRepoRequested(path) => {
            &&& new == AppState { loading: true, error: None, ..old }
            &&& eff == Effect::OpenRepo(path)
        },
        AppMessage::RepoOpened { path, head, branches, status } => {
            &&& new.current_repo matches Some(r) && r.is_fresh(path, head, branches, status)
            &&& new.config.recent_repos@ == spec_remember_repo(
                old.config.recent_repos@,
                path,
                old.config.max_recent,
            )
            &&& new == AppState {
                current_repo: new.current_repo,
                loading: false,
                config: crate::config::AppConfig { recent_repos: new.config.recent_repos, ..old.config },
                ..old
            }
            &&& eff matches Effect::Batch(v) && v@ == seq![
                Effect::SaveConfig,
                Effect::LoadCommitHistory(path),
                Effect::LoadWorkingDirStatus(path),
                Effect::LoadAuthorIdentity(path),
            ]
        },
        AppMessage::CloseRepo => {
            &&& new == AppState { current_repo: None, ..old }
            &&& eff == Effect::Nothing
        },
        AppMessage::RefreshRepo => match old.current_repo {
            Some(r) => {
                &&& new == AppState { loading: true, error: None, ..old }
                &&& eff == Effect::RefreshRepo(r.path)
            },
            None => new == old && eff == Effect::Nothing,
        },
        AppMessage::RepoRefreshed { head, branches, status } => {
            &&& new == AppState {
                loading: false,
                current_repo: match old.current_repo {
                    Some(r) => Some(RepoState { head, branches, status_summary: status, ..r }),
                    None => None,
                },
                ..old
            }
            &&& eff == Effect::Nothing
        },
        AppMessage::Error(err) => {
            &&& new == AppState { loading: false, committing: false, error: Some(err), ..old }
            &&& eff == Effect::Nothing
        },
        AppMessage::ClearError => {
            &&& new == AppState { error: None, ..old }
            &&& eff == Effect::Nothing
        },
        AppMessage::LoadWorkingDirStatusRequested => {
            &&& new == AppState { loading: true, ..old }
            &&& eff == match old.current_repo {
                Some(r) => Effect::LoadWorkingDirStatus(r.path),
                None => Effect::Nothing,
            }
        },
        AppMessage::WorkingDirStatusLoaded(files) => {
            &&& new == AppState {
                loading: false,
                current_repo: match old.current_repo {
                    Some(r) => Some(RepoState { working_dir_files: files, ..r }),
                    None => None,
                },
                ..old
            }
            &&& eff == Effect::Nothing
        },
        _ => true,
    }
}

/// Whether the message is one the repository handler takes.
pub open spec fn is_repo_message(msg: AppMessage) -> bool {
    match msg {
        AppMessage::OpenRepoRequested(_) | AppMessage::RepoOpened { .. } | AppMessage::CloseRepo
        | AppMessage::RefreshRepo | AppMessage::RepoRefreshed { .. } | AppMessage::Error(_)
        | AppMessage::ClearError | AppMessage::LoadWorkingDirStatusRequested
        | AppMessage::WorkingDirStatusLoaded(_) => true,
        _ => false,
    }
}

pub fn handle(state: &mut AppState, msg: AppMessage) -> (eff: Effect)
    requires
        is_repo_message(msg),
        old(state).wf(),
    ensures
        repo_step(*old(state), msg, *final(state), eff),
        final(state).wf(),
{
    match msg {
        AppMessage::OpenRepoRequested(path) => {
            state.loading = true;
            state.error = None;
            Effect::OpenRepo(path)
        },
        AppMessage::RepoOpened { path, head, branches, status } => {
            state.loading = false;
            state.current_repo = Some(RepoState::new(path.clone(), head, branches, status));
            let max = state.config.max_recent;
            remember_repo(&mut state.config.recent_repos, path.clone(), max);
            let mut effects: Vec<Effect> = Vec::new();
            effects.push(Effect::SaveConfig);
            effects.push(Effect::LoadCommitHistory(path.clone()));
            effects.push(Effect::LoadWorkingDirStatus(path.clone()));
            effects.push(Effect::LoadAuthorIdentity(path));
            assert(effects@ =~= seq![
                Effect::SaveConfig,
                Effect::LoadCommitHistory(path),
                Effect::LoadWorkingDirStatus(path),
                Effect::LoadAuthorIdentity(path),
            ]);
            Effect::Batch(effects)
        },
        AppMessage::CloseRepo => {
            state.current_repo = None;
            Effect::Nothing
        },
        AppMessage::RefreshRepo => {
            if let Some(repo) = &state.current_repo {
                let path = repo.path.clone();
                state.loading = true;
                state.error = None;
                Effect::RefreshRepo(path)
            } else {
                Effect::Nothing
            }
        },
        AppMessage::RepoRefreshed { head, branches, status } => {
            state.loading = false;
            if let Some(repo) = &mut state.current_repo {
                repo.head = head;
                repo.branches = branches;
                repo.status_summary = status;
            }
            Effect::Nothing
        },
        AppMessage::Error(err) => {
            state.loading = false;
            state.committing = false;
            state.error = Some(err);
            Effect::Nothing
        },
        AppMessage::ClearError => {
            state.error = None;
            Effect::Nothing
        },
        AppMessage::LoadWorkingDirStatusRequested => {
            state.loading = true;
            if let Some(repo) = &state.current_repo {
                Effect::LoadWorkingDirStatus(repo.path.clone())
            } else {
                Effect::Nothing
            }
        },
        AppMessage::WorkingDirStatusLoaded(files) => {
            state.loading = false;
            if let Some(repo) = &mut state.current_repo {
                repo.working_dir_files = files;
            }
            Effect::Nothing
        },
        _ => Effect::Nothing,
    }
}

} // verus!
