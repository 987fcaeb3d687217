//! The order strings are sorted in, and the branch listing.

use crabontree::order::{branch_listing, sort_strings, str_before};

fn s(x: &str) -> String {
    x.to_string()
}

#[test]
fn strings_compare_as_sort_compares_them() {
    assert!(str_before("a", "b"));
    assert!(str_before("ab", "abc"));
    assert!(!str_before("abc", "ab"));
    assert!(!str_before("x", "x"));
    assert!(str_before("Z", "a"));
    assert!(str_before("z", "é"));
    assert!(str_before("", "a"));
}

#[test]
fn sorting_agrees_with_the_standard_sort() {
    let v = vec![s("main"), s("develop"), s("feature/x"), s("Main"), s("develop"), s("ä"), s("")];
    let mut expected = v.clone();
    expected.sort();
    assert_eq!(sort_strings(v), expected);
    assert!(sort_strings(Vec::new()).is_empty());
}

#[test]
fn branches_are_listed_sorted_with_remotes_prefixed() {
    let listing = branch_listing(vec![s("main"), s("dev")], vec![s("origin/main"), s("origin/dev")]);
    assert_eq!(listing, vec![s("dev"), s("main"), s("remotes/origin/dev"), s("remotes/origin/main")]);
}
