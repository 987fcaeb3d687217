//! Application configuration: recent repositories, theme, saved layout and the
//! commit message drafts kept per repository.
use vstd::prelude::*;

use crate::filters::{lemma_filter_contains, lemma_filter_push};

verus! {

/// Saved commit message draft for a repository (summary + description).
#[derive(Debug, Clone)]
pub struct CommitDraft {
    pub summary: String,
    pub description: String,
}

impl Default for CommitDraft {
    fn default() -> (r: Self)
        ensures
            r.summary@ == Seq::<char>::empty(),
            r.description@ == Seq::<char>::empty(),
    {
        CommitDraft { summary: String::new(), description: String::new() }
    }
}

/// Application configuration.
///
/// Commit drafts are kept as a list of `(repository key, draft)` entries, at most one
/// entry per key (see `wf`).
#[derive(Debug, Clone)]
pub struct AppConfig {
    pub theme: String,
    pub recent_repos: Vec<String>,
    pub max_recent: usize,
    /// Serialized dock layout state.
    pub dock_layout: Option<String>,
    /// Saved commit message drafts keyed by repository path.
    pub commit_drafts: Vec<(String, CommitDraft)>,
}

/// The repository keys of a list of drafts, in order.
pub open spec fn draft_keys(drafts: Seq<(String, CommitDraft)>) -> Seq<Seq<char>> {
    drafts.map_values(|e: (String, CommitDraft)| e.0@)
}

impl AppConfig {
    /// No repository has two stored drafts.
    pub open spec fn wf(&self) -> bool {
        draft_keys(self.commit_drafts@).no_duplicates()
    }
}

/// Number of recent repositories remembered by default.
pub fn default_max_recent() -> (n: usize)
    ensures
        n == 10,
{
    10
}

/// The identifier of the colour theme used when the configuration names none.
pub fn default_theme() -> (theme: String)
    ensures
        theme@ == "dark"@,
{
    "dark".to_owned()
}

impl Default for AppConfig {
    fn default() -> (r: Self)
        ensures
            r.theme@ == "dark"@,
            r.recent_repos@ == Seq::<String>::empty(),
            r.max_recent == 10,
            r.dock_layout is None,
            r.commit_drafts@ == Seq::<(String, CommitDraft)>::empty(),
            r.wf(),
    {
        AppConfig {
            theme: default_theme(),
            recent_repos: Vec::new(),
            max_recent: default_max_recent(),
            dock_layout: None,
            commit_drafts: Vec::new(),
        }
    }
}

/// The draft stored under `key`: the first entry with that key.
pub open spec fn spec_find_draft(drafts: Seq<(String, CommitDraft)>, key: Seq<char>) -> Option<
    CommitDraft,
>
    decreases drafts.len(),
{
    if drafts.len() == 0 {
        None
    } else if drafts[0].0@ == key {
        Some(drafts[0].1)
    } else {
        spec_find_draft(drafts.drop_first(), key)
    }
}

/// The drafts with every entry under `key` taken out.
pub open spec fn spec_without_draft(drafts: Seq<(String, CommitDraft)>, key: Seq<char>) -> Seq<
    (String, CommitDraft),
> {
    drafts.filter(keyed_otherwise(key))
}

/// Whether an entry is stored under another key than `key`.
pub open spec fn keyed_otherwise(key: Seq<char>) -> spec_fn((String, CommitDraft)) -> bool {
    |e: (String, CommitDraft)| e.0@ != key
}

/// Look up the draft stored for a repository.
pub fn find_draft<'a>(drafts: &'a Vec<(String, CommitDraft)>, key: &String) -> (r: Option<
    &'a CommitDraft,
>)
    ensures
        match r {
            Some(d) => spec_find_draft(drafts@, key@) == Some(*d),
            None => spec_find_draft(drafts@, key@) is None,
        },
{
    let mut i: usize = 0;
    assert(drafts@.skip(0) =~= drafts@);
    while i < drafts.len()
        invariant
            i <= drafts@.len(),
            spec_find_draft(drafts@, key@) == spec_find_draft(drafts@.skip(i as int), key@),
        decreases drafts@.len() - i,
    {
        assert(drafts@.skip(i as int).drop_first() =~= drafts@.skip(i + 1));
        if drafts[i].0 == *key {
            return Some(&drafts[i].1);
        }
        i = i + 1;
    }
    None
}

impl CommitDraft {
    /// A field-by-field copy of the draft.
    pub fn copy(&self) -> (r: CommitDraft)
        ensures
            r == *self,
    {
        CommitDraft { summary: self.summary.clone(), description: self.description.clone() }
    }
}

/// Take every draft stored for a repository out of the list.
pub fn remove_draft(drafts: &mut Vec<(String, CommitDraft)>, key: &String)
    ensures
        final(drafts)@ == spec_without_draft(old(drafts)@, key@),
        draft_keys(old(drafts)@).no_duplicates() ==> draft_keys(final(drafts)@).no_duplicates(),
{
    proof {
        lemma_without_draft_keys(drafts@, key@);
    }
    let ghost p = keyed_otherwise(key@);
    let mut kept: Vec<(String, CommitDraft)> = Vec::new();
    let mut i: usize = 0;
    while i < drafts.len()
        invariant
            i <= drafts@.len(),
            kept@ == drafts@.take(i as int).filter(p),
            p == keyed_otherwise(key@),
        decreases drafts@.len() - i,
    {
        proof {
            assert(drafts@.take(i + 1) =~= drafts@.take(i as int).push(drafts@[i as int]));
            lemma_filter_push(drafts@.take(i as int), p, drafts@[i as int]);
        }
        if drafts[i].0 != *key {
            kept.push((drafts[i].0.clone(), drafts[i].1.copy()));
        }
        i = i + 1;
    }
    assert(drafts@.take(drafts@.len() as int) =~= drafts@);
    *drafts = kept;
}

/// Store a draft for a repository, replacing any earlier one.
pub fn store_draft(drafts: &mut Vec<(String, CommitDraft)>, key: String, draft: CommitDraft)
    ensures
        final(drafts)@ == spec_without_draft(old(drafts)@, key@).push((key, draft)),
        draft_keys(old(drafts)@).no_duplicates() ==> draft_keys(final(drafts)@).no_duplicates(),
{
    proof {
        lemma_without_draft_keys(drafts@, key@);
        lemma_push_draft_keys(spec_without_draft(drafts@, key@), (key, draft));
    }
    remove_draft(drafts, &key);
    drafts.push((key, draft));
}

/// Taking out the drafts under `key` leaves no entry under it, keeps every other key
/// from the list, and adds no repeated key.
proof fn lemma_without_draft_keys(s: Seq<(String, CommitDraft)>, key: Seq<char>)
    ensures
        !draft_keys(spec_without_draft(s, key)).contains(key),
        draft_keys(s).no_duplicates() ==> draft_keys(spec_without_draft(s, key)).no_duplicates(),
{
    let p = keyed_otherwise(key);
    let w = s.filter(p);
    assert forall|i: int| 0 <= i < w.len() implies #[trigger] draft_keys(w)[i] != key by {
        lemma_filter_contains(s, p, i);
    }
    if draft_keys(s).no_duplicates() {
        lemma_filter_keys_no_dup(s, p);
    }
}

proof fn lemma_filter_keys_no_dup(
    s: Seq<(String, CommitDraft)>,
    p: spec_fn((String, CommitDraft)) -> bool,
)
    requires
        draft_keys(s).no_duplicates(),
    ensures
        draft_keys(s.filter(p)).no_duplicates(),
    decreases s.len(),
{
    reveal(Seq::filter);
    if s.len() > 0 {
        let t = s.drop_last();
        assert(draft_keys(t) =~= draft_keys(s).drop_last());
        lemma_filter_keys_no_dup(t, p);
        if p(s.last()) {
            assert(s.filter(p) == t.filter(p).push(s.last()));
            let w = s.filter(p);
            assert forall|i: int, j: int|
                0 <= i < draft_keys(w).len() && 0 <= j < draft_keys(w).len() && i != j
                implies draft_keys(w)[i] != draft_keys(w)[j] by {
                let n = t.filter(p).len() as int;
                if i < n && j < n {
                    assert(draft_keys(t.filter(p))[i] != draft_keys(t.filter(p))[j]);
                } else if i == n {
                    lemma_filter_contains(t, p, j);
                    let k = choose|k: int| 0 <= k < t.len() && t[k] == t.filter(p)[j];
                    assert(draft_keys(s)[k] == draft_keys(t)[k]);
                    assert(draft_keys(s)[s.len() - 1] == s.last().0@);
                } else {
                    lemma_filter_contains(t, p, i);
                    let k = choose|k: int| 0 <= k < t.len() && t[k] == t.filter(p)[i];
                    assert(draft_keys(s)[k] == draft_keys(t)[k]);
                    assert(draft_keys(s)[s.len() - 1] == s.last().0@);
                }
            }
        } else {
            assert(s.filter(p) == t.filter(p));
        }
    }
}

/// Adding an entry under a key that is not listed keeps the keys distinct.
proof fn lemma_push_draft_keys(s: Seq<(String, CommitDraft)>, x: (String, CommitDraft))
    requires
        !draft_keys(s).contains(x.0@),
    ensures
        draft_keys(s).no_duplicates() ==> draft_keys(s.push(x)).no_duplicates(),
{
    assert(draft_keys(s.push(x)) =~= draft_keys(s).push(x.0@));
    if draft_keys(s).no_duplicates() {
        assert forall|i: int, j: int|
            0 <= i < s.len() + 1 && 0 <= j < s.len() + 1 && i != j implies draft_keys(s.push(x))[i]
            != draft_keys(s.push(x))[j] by {
            if i == s.len() {
                assert(draft_keys(s)[j] == draft_keys(s.push(x))[j]);
            } else if j == s.len() {
                assert(draft_keys(s)[i] == draft_keys(s.push(x))[i]);
            }
        }
    }
}

proof fn lemma_find_draft_push(s: Seq<(String, CommitDraft)>, x: (String, CommitDraft), key: Seq<char>)
    ensures
        spec_find_draft(s.push(x), key) == (match spec_find_draft(s, key) {
            Some(d) => Some(d),
            None => if x.0@ == key {
                Some(x.1)
            } else {
                None
            },
        }),
    decreases s.len(),
{
    if s.len() > 0 {
        assert(s.push(x).drop_first() =~= s.drop_first().push(x));
        assert(s.push(x)[0] == s[0]);
        lemma_find_draft_push(s.drop_first(), x, key);
    } else {
        assert(s.push(x).drop_first() =~= s);
        assert(s.push(x)[0] == x);
    }
}

proof fn lemma_find_without(s: Seq<(String, CommitDraft)>, removed: Seq<char>, key: Seq<char>)
    ensures
        spec_find_draft(spec_without_draft(s, removed), key) == (if key == removed {
            None
        } else {
            spec_find_draft(s, key)
        }),
    decreases s.len(),
{
    let p = keyed_otherwise(removed);
    if s.len() > 0 {
        let init = s.drop_last();
        let x = s.last();
        assert(s =~= init.push(x));
        lemma_filter_push(init, p, x);
        lemma_find_without(init, removed, key);
        lemma_find_draft_push(init, x, key);
        if p(x) {
            lemma_find_draft_push(init.filter(p), x, key);
        }
    } else {
        reveal(Seq::filter);
        assert(s.filter(p) =~= s);
    }
}

/// Storing a draft for a repository and looking it up again gives that draft, and the
/// drafts of the other repositories stay as they were.
pub proof fn lemma_store_then_find(
    drafts: Seq<(String, CommitDraft)>,
    key: String,
    draft: CommitDraft,
    other: Seq<char>,
)
    ensures
        spec_find_draft(spec_without_draft(drafts, key@).push((key, draft)), key@) == Some(draft),
        other != key@ ==> spec_find_draft(spec_without_draft(drafts, key@).push((key, draft)), other)
            == spec_find_draft(drafts, other),
{
    lemma_find_without(drafts, key@, key@);
    lemma_find_draft_push(spec_without_draft(drafts, key@), (key, draft), key@);
    lemma_find_without(drafts, key@, other);
    lemma_find_draft_push(spec_without_draft(drafts, key@), (key, draft), other);
}

/// After the drafts of a repository are removed, none is found for it, and the drafts
/// of the other repositories stay as they were.
pub proof fn lemma_remove_then_find(drafts: Seq<(String, CommitDraft)>, key: Seq<char>, other: Seq<char>)
    ensures
        spec_find_draft(spec_without_draft(drafts, key), key) is None,
        other != key ==> spec_find_draft(spec_without_draft(drafts, key), other) == spec_find_draft(
            drafts,
            other,
        ),
{
    lemma_find_without(drafts, key, key);
    lemma_find_without(drafts, key, other);
}

} // verus!
