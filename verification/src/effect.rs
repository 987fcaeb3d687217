//! Side effects the reducer asks the runtime to perform.
use vstd::prelude::*;

use crate::job::Job;

verus! {

/// What the runtime must do after a state update.
#[derive(Debug)]
pub enum Effect {
    /// Nothing to do.
    Nothing,
    /// Save the configuration to disk.
    SaveConfig,
    /// Perform several effects in order.
    Batch(Vec<Effect>),
    OpenRepo(String),
    RefreshRepo(String),
    LoadCommitHistory(String),
    LoadCommitDiff { repo_path: String, commit_hash: String },
    LoadWorkingDirStatus(String),
    StageFile { repo_path: String, file_path: String },
    UnstageFile { repo_path: String, file_path: String },
    StageFiles { repo_path: String, file_paths: Vec<String> },
    UnstageFiles { repo_path: String, file_paths: Vec<String> },
    StageAll(String),
    UnstageAll(String),
    CreateCommit { repo_path: String, message: String, amend: bool, push: bool },
    LoadAuthorIdentity(String),
    LoadBranchTree(String),
    CheckUncommittedChanges { repo_path: String, branch_name: String, is_remote: bool },
    StashAndCheckout { repo_path: String, branch_name: String, is_remote: bool, from_branch: String },
    DiscardAndCheckout { repo_path: String, branch_name: String, is_remote: bool },
    CheckoutRemoteBranch {
        repo_path: String,
        remote_branch: String,
        local_name: String,
        override_existing: bool,
    },
    LoadChangedFiles(String),
    LoadFileContent { repo_path: String, file_path: String },
    LoadFileDiff { repo_path: String, file_path: String },
    LoadMultipleFileDiffs { repo_path: String, file_paths: Vec<String> },
    RevertFile { repo_path: String, file_path: String },
    /// Open a file in the external editor.
    OpenInEditor { full_path: String },
    /// Open a folder in the file manager.
    OpenFolder { full_path: String },
}

/// The background job that carries out an effect, for the effects that are jobs.
pub open spec fn spec_effect_job(e: Effect) -> Option<Job> {
    match e {
        Effect::OpenRepo(p) => Some(Job::OpenRepo(p)),
        Effect::RefreshRepo(p) => Some(Job::RefreshRepo(p)),
        Effect::LoadCommitHistory(p) => Some(Job::LoadCommitHistory(p)),
        Effect::LoadCommitDiff { repo_path, commit_hash } => Some(
            Job::LoadCommitDiff { repo_path, commit_hash },
        ),
        Effect::LoadWorkingDirStatus(p) => Some(Job::LoadWorkingDirStatus(p)),
        Effect::StageFile { repo_path, file_path } => Some(Job::StageFile { repo_path, file_path }),
        Effect::UnstageFile { repo_path, file_path } => Some(
            Job::UnstageFile { repo_path, file_path },
        ),
        Effect::StageFiles { repo_path, file_paths } => Some(
            Job::StageFiles { repo_path, file_paths },
        ),
        Effect::UnstageFiles { repo_path, file_paths } => Some(
            Job::UnstageFiles { repo_path, file_paths },
        ),
        Effect::StageAll(p) => Some(Job::StageAll(p)),
        Effect::UnstageAll(p) => Some(Job::UnstageAll(p)),
        Effect::CreateCommit { repo_path, message, amend, push } => Some(
            Job::CreateCommit { repo_path, message, amend, push },
        ),
        Effect::LoadAuthorIdentity(p) => Some(Job::LoadAuthorIdentity(p)),
        Effect::LoadBranchTree(p) => Some(Job::LoadBranchTree(p)),
        Effect::CheckUncommittedChanges { repo_path, branch_name, is_remote } => Some(
            Job::CheckUncommittedChanges { repo_path, branch_name, is_remote },
        ),
        Effect::StashAndCheckout { repo_path, branch_name, is_remote, from_branch } => Some(
            Job::StashAndCheckout { repo_path, branch_name, is_remote, from_branch },
        ),
        Effect::DiscardAndCheckout { repo_path, branch_name, is_remote } => Some(
            Job::DiscardAndCheckout { repo_path, branch_name, is_remote },
        ),
        Effect::CheckoutRemoteBranch { repo_path, remote_branch, local_name, override_existing } =>
            Some(
            Job::CheckoutRemoteBranch { repo_path, remote_branch, local_name, override_existing },
        ),
        Effect::LoadChangedFiles(p) => Some(Job::LoadChangedFiles(p)),
        Effect::LoadFileContent { repo_path, file_path } => Some(
            Job::LoadFileContent { repo_path, file_path },
        ),
        Effect::LoadFileDiff { repo_path, file_path } => Some(
            Job::LoadFileDiff { repo_path, file_path },
        ),
        Effect::LoadMultipleFileDiffs { repo_path, file_paths } => Some(
            Job::LoadMultipleFileDiffs { repo_path, file_paths },
        ),
        Effect::RevertFile { repo_path, file_path } => Some(Job::RevertFile { repo_path, file_path }),
        _ => None,
    }
}

impl Effect {
    /// Turn an effect into the background job that performs it; the effects that are
    /// not jobs (nothing, saving the configuration, batches, opening an editor or a
    /// folder) come back unchanged as the error.
    pub fn try_into_job(self) -> (r: Result<Job, Effect>)
        ensures
            match spec_effect_job(self) {
                Some(j) => r == Ok::<Job, Effect>(j),
                None => r == Err::<Job, Effect>(self),
            },
    {
        match self {
            Effect::OpenRepo(p) => Ok(Job::OpenRepo(p)),
            Effect::RefreshRepo(p) => Ok(Job::RefreshRepo(p)),
            Effect::LoadCommitHistory(p) => Ok(Job::LoadCommitHistory(p)),
            Effect::LoadCommitDiff { repo_path, commit_hash } => Ok(
                Job::LoadCommitDiff { repo_path, commit_hash },
            ),
            Effect::LoadWorkingDirStatus(p) => Ok(Job::LoadWorkingDirStatus(p)),
            Effect::StageFile { repo_path, file_path } => Ok(Job::StageFile { repo_path, file_path }),
            Effect::UnstageFile { repo_path, file_path } => Ok(
                Job::UnstageFile { repo_path, file_path },
            ),
            Effect::StageFiles { repo_path, file_paths } => Ok(
                Job::StageFiles { repo_path, file_paths },
            ),
            Effect::UnstageFiles { repo_path, file_paths } => Ok(
                Job::UnstageFiles { repo_path, file_paths },
            ),
            Effect::StageAll(p) => Ok(Job::StageAll(p)),
            Effect::UnstageAll(p) => Ok(Job::UnstageAll(p)),
            Effect::CreateCommit { repo_path, message, amend, push } => Ok(
                Job::CreateCommit { repo_path, message, amend, push },
            ),
            Effect::LoadAuthorIdentity(p) => Ok(Job::LoadAuthorIdentity(p)),
            Effect::LoadBranchTree(p) => Ok(Job::LoadBranchTree(p)),
            Effect::CheckUncommittedChanges { repo_path, branch_name, is_remote } => Ok(
                Job::CheckUncommittedChanges { repo_path, branch_name, is_remote },
            ),
            Effect::StashAndCheckout { repo_path, branch_name, is_remote, from_branch } => Ok(
                Job::StashAndCheckout { repo_path, branch_name, is_remote, from_branch },
            ),
            Effect::DiscardAndCheckout { repo_path, branch_name, is_remote } => Ok(
                Job::DiscardAndCheckout { repo_path, branch_name, is_remote },
            ),
            Effect::CheckoutRemoteBranch {
                repo_path,
                remote_branch,
                local_name,
                override_existing,
            } => Ok(
                Job::CheckoutRemoteBranch { repo_path, remote_branch, local_name, override_existing },
            ),
            Effect::LoadChangedFiles(p) => Ok(Job::LoadChangedFiles(p)),
            Effect::LoadFileContent { repo_path, file_path } => Ok(
                Job::LoadFileContent { repo_path, file_path },
            ),
            Effect::LoadFileDiff { repo_path, file_path } => Ok(
                Job::LoadFileDiff { repo_path, file_path },
            ),
            Effect::LoadMultipleFileDiffs { repo_path, file_paths } => Ok(
                Job::LoadMultipleFileDiffs { repo_path, file_paths },
            ),
            Effect::RevertFile { repo_path, file_path } => Ok(Job::RevertFile { repo_path, file_path }),
            other => Err(other),
        }
    }
}

} // verus!
