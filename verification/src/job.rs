//! Job types for background operations.
use vstd::prelude::*;

verus! {

/// Unique identifier for a job.
#[derive(Debug, Clone, Copy, PartialEq, Eq, Hash, Structural)]
pub struct JobId(pub u64);

/// Hands out job identifiers, one after the other, starting at 1. Each generator counts
/// on its own, so two generators hand out the same identifiers: an application keeps a
/// single one and passes it to every place that creates jobs.
pub struct JobIdGenerator {
    next: u64,
    /// The identifiers handed out so far, in order.
    issued: Ghost<Seq<u64>>,
}

impl JobIdGenerator {
    /// The identifiers handed out so far are those the calls of the counter give from 1 on,
    /// and the next one is the one after them.
    #[verifier::type_invariant]
    spec fn counts_from_one(self) -> bool {
        &&& self.next == spec_nth_id(1, self.issued@.len())
        &&& forall|i: int| 0 <= i < self.issued@.len() ==> #[trigger] self.issued@[i]
            == spec_nth_id(1, i as nat)
    }

    /// The identifier the next call of `JobId::new` hands out.
    pub closed spec fn next_id(&self) -> u64 {
        self.next
    }

    /// The identifiers handed out so far, in order.
    pub closed spec fn issued(&self) -> Seq<u64> {
        self.issued@
    }

    /// A generator whose first identifier is 1 and which has handed out none.
    pub fn new() -> (r: Self)
        ensures
            r.next_id() == 1,
            r.issued() == Seq::<u64>::empty(),
    {
        JobIdGenerator { next: 1, issued: Ghost(Seq::empty()) }
    }
}

/// The identifier handed out after `n`: the next number, wrapping round at `u64::MAX`.
pub open spec fn spec_following_id(n: u64) -> u64 {
    if n == u64::MAX {
        0
    } else {
        (n + 1) as u64
    }
}

/// Two identifiers handed out one after the other by the same generator differ.
pub proof fn lemma_successive_ids_differ(first: JobId, between: JobIdGenerator, second: JobId)
    requires
        between.next_id() == spec_following_id(first.0),
        second.0 == between.next_id(),
    ensures
        first != second,
{
}

/// The identifier handed out by the call that follows `k` calls on a generator whose next
/// identifier was `start`.
pub open spec fn spec_nth_id(start: u64, k: nat) -> u64
    decreases k,
{
    if k == 0 {
        start
    } else {
        spec_following_id(spec_nth_id(start, (k - 1) as nat))
    }
}

proof fn lemma_nth_id_value(start: u64, k: nat)
    requires
        k <= u64::MAX,
    ensures
        spec_nth_id(start, k) == (if start + k <= u64::MAX {
            start + k
        } else {
            start + k - 0x1_0000_0000_0000_0000
        }),
    decreases k,
{
    if k > 0 {
        lemma_nth_id_value(start, (k - 1) as nat);
    }
}

/// The identifiers that one generator hands out, call after call, are all distinct until
/// its counter has gone once round all `u64` values.
pub proof fn lemma_ids_never_repeat(start: u64, i: nat, j: nat)
    requires
        i < j <= u64::MAX,
    ensures
        spec_nth_id(start, i) != spec_nth_id(start, j),
{
    lemma_nth_id_value(start, i);
    lemma_nth_id_value(start, j);
}

impl JobId {
    /// Generate a new job identifier: the generator's next one, after which the
    /// generator moves on by one (wrapping around at `u64::MAX`).
    ///
    /// The identifier is none of those the generator handed out before, as long as it has
    /// handed out fewer than 2^64 of them.
    pub fn new(ids: &mut JobIdGenerator) -> (r: Self)
        ensures
            r.0 == old(ids).next_id(),
            final(ids).next_id() == spec_following_id(old(ids).next_id()),
            final(ids).issued() == old(ids).issued().push(r.0),
            old(ids).issued().len() <= u64::MAX ==> !old(ids).issued().contains(r.0),
    {
        proof {
            use_type_invariant(&*ids);
        }
        let id = ids.next;
        let ghost before = ids.issued@;
        proof {
            if before.len() <= u64::MAX {
                assert forall|i: int| 0 <= i < before.len() implies before[i] != id by {
                    lemma_ids_never_repeat(1, i as nat, before.len());
                }
            }
        }
        *ids = JobIdGenerator { next: id.wrapping_add(1), issued: Ghost(before.push(id)) };
        JobId(id)
    }
}

/// Jobs that can be executed in the background.
#[derive(Debug, Clone)]
pub enum Job {
    /// Open a repository at the given path.
    OpenRepo(String),
    /// Refresh data for the repository at the given path.
    RefreshRepo(String),
    /// Load commit history for the repository at the given path.
    LoadCommitHistory(String),
    /// Load diff for a specific commit.
    LoadCommitDiff { repo_path: String, commit_hash: String },
    /// Load working directory status.
    LoadWorkingDirStatus(String),
    /// Stage a file.
    StageFile { repo_path: String, file_path: String },
    /// Unstage a file.
    UnstageFile { repo_path: String, file_path: String },
    /// Stage several files in one batch.
    StageFiles { repo_path: String, file_paths: Vec<String> },
    /// Unstage several files in one batch.
    UnstageFiles { repo_path: String, file_paths: Vec<String> },
    /// Stage all changes.
    StageAll(String),
    /// Unstage all changes.
    UnstageAll(String),
    /// Create (or amend) a commit with the given message, then push if asked.
    CreateCommit { repo_path: String, message: String, amend: bool, push: bool },
    /// Load author identity from git config.
    LoadAuthorIdentity(String),
    /// Load branch tree.
    LoadBranchTree(String),
    /// Checkout a branch.
    CheckoutBranch { repo_path: String, branch_name: String },
    /// Check for uncommitted changes before checking out a branch.
    CheckUncommittedChanges { repo_path: String, branch_name: String, is_remote: bool },
    /// Stash the changes, then checkout a branch.
    StashAndCheckout { repo_path: String, branch_name: String, is_remote: bool, from_branch: String },
    /// Discard the changes, then checkout a branch.
    DiscardAndCheckout { repo_path: String, branch_name: String, is_remote: bool },
    /// Ask whether the local name of a remote branch is taken.
    CheckLocalBranchExists { repo_path: String, remote_branch: String, local_name: String },
    /// Create a local branch tracking a remote one and check it out.
    CheckoutRemoteBranch {
        repo_path: String,
        remote_branch: String,
        local_name: String,
        override_existing: bool,
    },
    /// Load changed files.
    LoadChangedFiles(String),
    /// Load file content.
    LoadFileContent { repo_path: String, file_path: String },
    /// Load file diff.
    LoadFileDiff { repo_path: String, file_path: String },
    /// Load the diffs of several files.
    LoadMultipleFileDiffs { repo_path: String, file_paths: Vec<String> },
    /// Revert a file's working-directory changes.
    RevertFile { repo_path: String, file_path: String },
}

} // verus!
