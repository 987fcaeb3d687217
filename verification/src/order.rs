//! The order of strings that `sort` gives them: byte by byte in their UTF-8 encoding,
//! which is the order of their characters' code points, a prefix first.
use vstd::prelude::*;

use vstd::string::StringSliceAdditionalSpecFns;
use vstd::utf8::encode_utf8;

use crate::text::{concat_str, texts};

verus! {

/// Whether the bytes `a` come before the bytes `b`: at the first difference the smaller
/// byte comes first, and a proper prefix comes before the longer sequence.
pub open spec fn bytes_before(a: Seq<u8>, b: Seq<u8>) -> bool
    decreases a.len(),
{
    if a.len() == 0 {
        b.len() > 0
    } else if b.len() == 0 {
        false
    } else if a[0] != b[0] {
        a[0] < b[0]
    } else {
        bytes_before(a.drop_first(), b.drop_first())
    }
}

/// Whether the text `a` comes before the text `b` (compared in UTF-8).
pub open spec fn text_before(a: Seq<char>, b: Seq<char>) -> bool {
    bytes_before(encode_utf8(a), encode_utf8(b))
}

/// No text comes after a text that follows it in the sequence.
pub open spec fn is_sorted_texts(s: Seq<Seq<char>>) -> bool {
    forall|i: int, j: int| 0 <= i < j < s.len() ==> !text_before(#[trigger] s[j], #[trigger] s[i])
}

/// Nothing comes before itself.
pub proof fn lemma_bytes_before_irreflexive(a: Seq<u8>)
    ensures
        !bytes_before(a, a),
    decreases a.len(),
{
    if a.len() > 0 {
        lemma_bytes_before_irreflexive(a.drop_first());
    }
}

/// The order is transitive.
pub proof fn lemma_bytes_before_transitive(a: Seq<u8>, b: Seq<u8>, c: Seq<u8>)
    requires
        bytes_before(a, b),
        bytes_before(b, c),
    ensures
        bytes_before(a, c),
    decreases a.len(),
{
    if a.len() > 0 && b.len() > 0 && c.len() > 0 && a[0] == b[0] && b[0] == c[0] {
        lemma_bytes_before_transitive(a.drop_first(), b.drop_first(), c.drop_first());
    }
}

proof fn lemma_bytes_before_skip(a: Seq<u8>, b: Seq<u8>, i: int)
    requires
        0 <= i <= a.len(),
        i <= b.len(),
        a.subrange(0, i) == b.subrange(0, i),
    ensures
        bytes_before(a, b) == bytes_before(a.skip(i), b.skip(i)),
    decreases i,
{
    if i > 0 {
        assert(a[0] == a.subrange(0, i)[0]);
        assert(b[0] == b.subrange(0, i)[0]);
        assert(a.drop_first().subrange(0, i - 1) =~= a.subrange(0, i).drop_first());
        assert(b.drop_first().subrange(0, i - 1) =~= b.subrange(0, i).drop_first());
        lemma_bytes_before_skip(a.drop_first(), b.drop_first(), i - 1);
        assert(a.drop_first().skip(i - 1) =~= a.skip(i));
        assert(b.drop_first().skip(i - 1) =~= b.skip(i));
    } else {
        assert(a.skip(0) =~= a);
        assert(b.skip(0) =~= b);
    }
}

/// Whether `a` comes before `b` in the order `sort` puts strings in.
pub fn str_before(a: &str, b: &str) -> (r: bool)
    ensures
        r == text_before(a@, b@),
{
    let x = a.as_bytes();
    let y = b.as_bytes();
    let mut i: usize = 0;
    while i < x.len() && i < y.len()
        invariant
            i <= x@.len(),
            i <= y@.len(),
            x@ == a.spec_bytes(),
            y@ == b.spec_bytes(),
            x@.subrange(0, i as int) == y@.subrange(0, i as int),
        decreases x@.len() - i,
    {
        if x[i] != y[i] {
            proof {
                lemma_bytes_before_skip(x@, y@, i as int);
                assert(x@.skip(i as int)[0] == x@[i as int]);
                assert(y@.skip(i as int)[0] == y@[i as int]);
            }
            return x[i] < y[i];
        }
        proof {
            assert(x@.subrange(0, i + 1) =~= x@.subrange(0, i as int).push(x@[i as int]));
            assert(y@.subrange(0, i + 1) =~= y@.subrange(0, i as int).push(y@[i as int]));
        }
        i = i + 1;
    }
    proof {
        lemma_bytes_before_skip(x@, y@, i as int);
    }
    i < y.len()
}

/// The strings in the order `sort` gives them: ascending, the same strings as many times
/// as they were given.
pub fn sort_strings(v: Vec<String>) -> (r: Vec<String>)
    ensures
        texts(r@).to_multiset() == texts(v@).to_multiset(),
        is_sorted_texts(texts(r@)),
{
    broadcast use vstd::seq_lib::to_multiset_insert;

    let mut r: Vec<String> = Vec::new();
    let mut k: usize = 0;
    assert(texts(v@.take(0)) =~= texts(r@));
    while k < v.len()
        invariant
            k <= v@.len(),
            texts(r@).to_multiset() == texts(v@.take(k as int)).to_multiset(),
            is_sorted_texts(texts(r@)),
        decreases v@.len() - k,
    {
        let x = v[k].clone();
        let mut p: usize = 0;
        while p < r.len() && !str_before(x.as_str(), r[p].as_str())
            invariant
                p <= r@.len(),
                forall|m: int| 0 <= m < p ==> !text_before(x@, #[trigger] r@[m]@),
            decreases r@.len() - p,
        {
            p = p + 1;
        }
        let ghost old_r = r@;
        r.insert(p, x);
        proof {
            assert(texts(r@) =~= texts(old_r).insert(p as int, x@));
            assert(texts(v@.take(k + 1)) =~= texts(v@.take(k as int)).push(v@[k as int]@));
            assert(texts(v@.take(k as int)).push(v@[k as int]@) =~= texts(v@.take(k as int)).insert(
                k as int,
                v@[k as int]@,
            ));
            vstd::seq_lib::to_multiset_insert(texts(old_r), p as int, x@);
            vstd::seq_lib::to_multiset_insert(texts(v@.take(k as int)), k as int, v@[k as int]@);
            let t = texts(r@);
            assert forall|i: int, j: int| 0 <= i < j < t.len() implies !text_before(
                #[trigger] t[j],
                #[trigger] t[i],
            ) by {
                if i < p && j == p {
                    assert(t[i] == old_r[i]@);
                } else if i == p && j > p {
                    assert(t[j] == old_r[j - 1]@);
                    if text_before(t[j], t[i]) {
                        if p < old_r.len() {
                            assert(text_before(x@, old_r[p as int]@));
                            lemma_bytes_before_transitive(
                                encode_utf8(t[j]),
                                encode_utf8(x@),
                                encode_utf8(old_r[p as int]@),
                            );
                            if j - 1 == p {
                                lemma_bytes_before_irreflexive(encode_utf8(old_r[p as int]@));
                            } else {
                                assert(texts(old_r)[p as int] == old_r[p as int]@);
                                assert(texts(old_r)[j - 1] == old_r[j - 1]@);
                            }
                        }
                    }
                } else if j < p {
                    assert(t[i] == texts(old_r)[i] && t[j] == texts(old_r)[j]);
                } else if i > p {
                    assert(t[i] == texts(old_r)[i - 1] && t[j] == texts(old_r)[j - 1]);
                } else if i < p && j > p {
                    assert(t[i] == texts(old_r)[i] && t[j] == texts(old_r)[j - 1]);
                }
            }
        }
        k = k + 1;
    }
    assert(v@.take(v@.len() as int) =~= v@);
    r
}

/// The branch names of a repository as listed when it is opened: the local branches,
/// and each remote branch as `remotes/` and its name, all sorted.
pub open spec fn spec_branch_listing(local: Seq<Seq<char>>, remote: Seq<Seq<char>>) -> Seq<
    Seq<char>,
> {
    local + remote.map_values(|n: Seq<char>| "remotes/"@ + n)
}

/// Lists the branch names of a repository: the local ones and the remote ones under
/// `remotes/`, in sorted order.
pub fn branch_listing(local: Vec<String>, remote: Vec<String>) -> (r: Vec<String>)
    ensures
        texts(r@).to_multiset() == spec_branch_listing(texts(local@), texts(remote@)).to_multiset(),
        is_sorted_texts(texts(r@)),
{
    let mut all = local;
    let ghost local_texts = texts(all@);
    let mut i: usize = 0;
    while i < remote.len()
        invariant
            i <= remote@.len(),
            texts(all@) == spec_branch_listing(local_texts, texts(remote@.take(i as int))),
        decreases remote@.len() - i,
    {
        let ghost old_all = all@;
        let label = concat_str("remotes/", remote[i].as_str());
        all.push(label);
        proof {
            assert(texts(all@) =~= texts(old_all).push(label@));
            let before = texts(remote@.take(i as int));
            let after = texts(remote@.take(i + 1));
            assert(after =~= before.push(remote@[i as int]@));
            let f = |n: Seq<char>| "remotes/"@ + n;
            assert(after.map_values(f) =~= before.map_values(f).push(f(remote@[i as int]@)));
            assert(label@ == f(remote@[i as int]@));
            assert(spec_branch_listing(local_texts, after) =~= spec_branch_listing(local_texts, before).push(
                label@,
            ));
            assert(texts(all@) =~= spec_branch_listing(local_texts, after));
        }
        i = i + 1;
    }
    assert(remote@.take(remote@.len() as int) =~= remote@);
    sort_strings(all)
}

} // verus!
