//! Sets of names kept as duplicate-free lists: expanded branch sections and selected files.
use vstd::prelude::*;

use crate::filters::{lemma_filter_contains, lemma_filter_push};
use crate::text::texts;

verus! {

/// The list with every string of text `x` taken out.
pub open spec fn spec_without(s: Seq<String>, x: Seq<char>) -> Seq<String> {
    s.filter(|e: String| e@ != x)
}

/// Toggling a name: taken out when listed, added at the end otherwise.
pub open spec fn spec_toggle(s: Seq<String>, x: String) -> Seq<String> {
    if texts(s).contains(x@) {
        spec_without(s, x@)
    } else {
        s.push(x)
    }
}

/// Adding a name unless it is listed already.
pub open spec fn spec_insert(s: Seq<String>, x: String) -> Seq<String> {
    if texts(s).contains(x@) {
        s
    } else {
        s.push(x)
    }
}

/// Filtering keeps a duplicate-free text list duplicate free.
pub proof fn lemma_filter_no_dup(s: Seq<String>, p: spec_fn(String) -> bool)
    requires
        texts(s).no_duplicates(),
    ensures
        texts(s.filter(p)).no_duplicates(),
    decreases s.len(),
{
    reveal(Seq::filter);
    if s.len() > 0 {
        let t = s.drop_last();
        assert(texts(t) =~= texts(s).drop_last());
        assert(texts(t).no_duplicates());
        lemma_filter_no_dup(t, p);
        if p(s.last()) {
            assert(s.filter(p) == t.filter(p).push(s.last()));
            assert forall|i: int, j: int|
                0 <= i < texts(s.filter(p)).len() && 0 <= j < texts(s.filter(p)).len() && i != j
                implies texts(s.filter(p))[i] != texts(s.filter(p))[j] by {
                let n = t.filter(p).len() as int;
                if i < n && j < n {
                    assert(texts(t.filter(p))[i] != texts(t.filter(p))[j]);
                } else if i == n {
                    lemma_filter_contains(t, p, j);
                    let k = choose|k: int| 0 <= k < t.len() && t[k] == t.filter(p)[j];
                    assert(texts(s)[k] == texts(t)[k]);
                    assert(texts(s)[s.len() - 1] == s.last()@);
                } else {
                    lemma_filter_contains(t, p, i);
                    let k = choose|k: int| 0 <= k < t.len() && t[k] == t.filter(p)[i];
                    assert(texts(s)[k] == texts(t)[k]);
                    assert(texts(s)[s.len() - 1] == s.last()@);
                }
            }
        } else {
            assert(s.filter(p) == t.filter(p));
        }
    }
}

/// Pushing a text not yet listed keeps the list duplicate free.
pub proof fn lemma_push_no_dup(s: Seq<String>, x: String)
    requires
        texts(s).no_duplicates(),
        !texts(s).contains(x@),
    ensures
        texts(s.push(x)).no_duplicates(),
{
    assert(texts(s.push(x)) =~= texts(s).push(x@));
    assert forall|i: int, j: int|
        0 <= i < texts(s.push(x)).len() && 0 <= j < texts(s.push(x)).len() && i != j implies texts(
        s.push(x),
    )[i] != texts(s.push(x))[j] by {
        if i == s.len() {
            assert(texts(s)[j] == texts(s.push(x))[j]);
        } else if j == s.len() {
            assert(texts(s)[i] == texts(s.push(x))[i]);
        }
    }
}

/// Take every string with the text of `x` out of the list.
pub fn remove_text(list: &mut Vec<String>, x: &String)
    ensures
        final(list)@ == spec_without(old(list)@, x@),
{
    let ghost p = |e: String| e@ != x@;
    let mut kept: Vec<String> = Vec::new();
    let mut i: usize = 0;
    while i < list.len()
        invariant
            i <= list@.len(),
            kept@ == list@.take(i as int).filter(p),
            p == (|e: String| e@ != x@),
        decreases list@.len() - i,
    {
        proof {
            assert(list@.take(i + 1) =~= list@.take(i as int).push(list@[i as int]));
            lemma_filter_push(list@.take(i as int), p, list@[i as int]);
        }
        if list[i] != *x {
            kept.push(list[i].clone());
        }
        i = i + 1;
    }
    assert(list@.take(list@.len() as int) =~= list@);
    *list = kept;
}

/// Toggle a name in a duplicate-free list.
pub fn toggle_text(list: &mut Vec<String>, x: String)
    ensures
        final(list)@ == spec_toggle(old(list)@, x),
        texts(old(list)@).no_duplicates() ==> texts(final(list)@).no_duplicates(),
{
    if crate::text::contains_text(list, x.as_str()) {
        remove_text(list, &x);
        proof {
            if texts(old(list)@).no_duplicates() {
                lemma_filter_no_dup(old(list)@, |e: String| e@ != x@);
            }
        }
    } else {
        list.push(x);
        proof {
            if texts(old(list)@).no_duplicates() {
                lemma_push_no_dup(old(list)@, x);
            }
        }
    }
}

/// Add a name to a duplicate-free list unless it is listed.
pub fn insert_text(list: &mut Vec<String>, x: String)
    ensures
        final(list)@ == spec_insert(old(list)@, x),
        texts(old(list)@).no_duplicates() ==> texts(final(list)@).no_duplicates(),
{
    if !crate::text::contains_text(list, x.as_str()) {
        list.push(x);
        proof {
            if texts(old(list)@).no_duplicates() {
                lemma_push_no_dup(old(list)@, x);
            }
        }
    }
}

/// Toggling the same name twice leaves the same set of names.
pub proof fn lemma_toggle_twice(s: Seq<String>, x: String)
    requires
        texts(s).no_duplicates(),
    ensures
        texts(spec_toggle(spec_toggle(s, x), x)).to_set() == texts(s).to_set(),
{
    let once = spec_toggle(s, x);
    let twice = spec_toggle(once, x);
    let p = |e: String| e@ != x@;
    if texts(s).contains(x@) {
        assert(once == s.filter(p));
        assert(!texts(once).contains(x@)) by {
            if texts(once).contains(x@) {
                let k = choose|k: int| 0 <= k < texts(once).len() && texts(once)[k] == x@;
                lemma_filter_contains(s, p, k);
            }
        }
        assert(twice == once.push(x));
        assert forall|t: Seq<char>| texts(twice).contains(t) <==> texts(s).contains(t) by {
            if texts(twice).contains(t) {
                let k = choose|k: int| 0 <= k < texts(twice).len() && texts(twice)[k] == t;
                if k < once.len() {
                    lemma_filter_contains(s, p, k);
                    let m = choose|m: int| 0 <= m < s.len() && s[m] == once[k];
                    assert(texts(s)[m] == t);
                } else {
                    assert(t == x@);
                }
            }
            if texts(s).contains(t) {
                let m = choose|m: int| 0 <= m < texts(s).len() && texts(s)[m] == t;
                if t == x@ {
                    assert(texts(twice)[once.len() as int] == t);
                } else {
                    lemma_filter_keeps(s, p, m);
                    let k = choose|k: int| 0 <= k < once.len() && once[k] == s[m];
                    assert(texts(twice)[k] == t);
                }
            }
        }
    } else {
        assert(once == s.push(x));
        assert(texts(once).contains(x@)) by {
            assert(texts(once)[s.len() as int] == x@);
        }
        assert(twice == once.filter(p));
        assert forall|t: Seq<char>| texts(twice).contains(t) <==> texts(s).contains(t) by {
            if texts(twice).contains(t) {
                let k = choose|k: int| 0 <= k < texts(twice).len() && texts(twice)[k] == t;
                lemma_filter_contains(once, p, k);
                let m = choose|m: int| 0 <= m < once.len() && once[m] == twice[k];
                assert(m != s.len());
                assert(texts(s)[m] == t);
            }
            if texts(s).contains(t) {
                let m = choose|m: int| 0 <= m < texts(s).len() && texts(s)[m] == t;
                assert(t != x@);
                assert(once[m] == s[m]);
                lemma_filter_keeps(once, p, m);
                let k = choose|k: int| 0 <= k < twice.len() && twice[k] == once[m];
                assert(texts(twice)[k] == t);
            }
        }
    }
    assert(texts(twice).to_set() =~= texts(s).to_set());
}

/// An element of a list that passes the filter is an element of the filtered list.
pub proof fn lemma_filter_keeps<A>(s: Seq<A>, p: spec_fn(A) -> bool, m: int)
    requires
        0 <= m < s.len(),
        p(s[m]),
    ensures
        s.filter(p).contains(s[m]),
    decreases s.len(),
{
    reveal(Seq::filter);
    let t = s.drop_last();
    if m == s.len() - 1 {
        assert(s.filter(p) == t.filter(p).push(s.last()));
        assert(s.filter(p)[t.filter(p).len() as int] == s[m]);
    } else {
        lemma_filter_keeps(t, p, m);
        assert(t[m] == s[m]);
        let k = choose|k: int| 0 <= k < t.filter(p).len() && t.filter(p)[k] == t[m];
        if p(s.last()) {
            assert(s.filter(p) == t.filter(p).push(s.last()));
            assert(s.filter(p)[k] == s[m]);
        } else {
            assert(s.filter(p) == t.filter(p));
        }
    }
}

} // verus!
