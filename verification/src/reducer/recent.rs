//! The list of recently opened repositories.
use vstd::prelude::*;

use crate::text::{contains_text, texts};

verus! {

/// The recent-repository list after `path` was opened: unchanged when the path is
/// already listed, else the path in front of the others, cut down to `max` entries.
pub open spec fn spec_remember_repo(recent: Seq<String>, path: String, max: usize) -> Seq<String> {
    if texts(recent).contains(path@) {
        recent
    } else {
        let grown = seq![path] + recent;
        if max < grown.len() {
            grown.take(max as int)
        } else {
            grown
        }
    }
}

/// Put a just-opened repository at the front of the recent list
/// (unless it is there already) and keep at most `max` entries.
pub fn remember_repo(recent: &mut Vec<String>, path: String, max: usize)
    ensures
        final(recent)@ == spec_remember_repo(old(recent)@, path, max),
{
    if !contains_text(recent, path.as_str()) {
        recent.insert(0, path);
        recent.truncate(max);
        proof {
            let grown = seq![path] + old(recent)@;
            assert(old(recent)@.insert(0, path) =~= grown);
        }
    }
}

/// A repository already listed does not change the list; a new one is listed first,
/// and the list never grows past `max` when it did not already exceed it; no text
/// ever occurs twice when it did not before.
pub proof fn lemma_remember_repo(recent: Seq<String>, path: String, max: usize)
    ensures
        texts(recent).contains(path@) ==> spec_remember_repo(recent, path, max) == recent,
        !texts(recent).contains(path@) && max > 0 ==> spec_remember_repo(recent, path, max)[0]
            == path,
        !texts(recent).contains(path@) ==> spec_remember_repo(recent, path, max).len() <= max,
        texts(recent).no_duplicates() ==> texts(spec_remember_repo(recent, path, max)).no_duplicates(),
{
    let r = spec_remember_repo(recent, path, max);
    if !texts(recent).contains(path@) {
        let grown = seq![path] + recent;
        assert(texts(grown) =~= seq![path@] + texts(recent));
        if texts(recent).no_duplicates() {
            assert(texts(grown).no_duplicates()) by {
                assert forall|i: int, j: int|
                    0 <= i < texts(grown).len() && 0 <= j < texts(grown).len() && i != j implies
                    texts(grown)[i] != texts(grown)[j] by {
                    if i == 0 {
                        assert(texts(recent)[j - 1] == texts(grown)[j]);
                    } else if j == 0 {
                        assert(texts(recent)[i - 1] == texts(grown)[i]);
                    }
                }
            }
            if max < grown.len() {
                assert(texts(grown.take(max as int)) =~= texts(grown).take(max as int));
            }
        }
    }
}

} // verus!
