//! File-system path operations on path texts, carried out by `std::path`.
use vstd::prelude::*;

verus! {

/// The text `Path::join` gives for a base path and a path joined onto it.
pub uninterp spec fn path_join(base: Seq<char>, rel: Seq<char>) -> Seq<char>;

/// The text of `Path::parent` of a path, `None` when the path has no parent.
pub uninterp spec fn path_parent(p: Seq<char>) -> Option<Seq<char>>;

/// The extension `Path::extension` finds in a path.
pub uninterp spec fn path_extension(p: Seq<char>) -> Option<Seq<char>>;

/// Calls `std::path::Path::join`. Its contract names the result `path_join` of both
/// texts: how the second path is appended or replaces the first (separators, absolute
/// paths) is the path syntax of the target the crate is built for, and is left to the
/// name.
#[verifier::external_body]
pub(crate) fn join_path(base: &str, rel: &str) -> (r: String)
    ensures
        r@ == path_join(base@, rel@),
{
    std::path::Path::new(base).join(rel).to_string_lossy().into_owned()
}

/// Calls `std::path::Path::parent`. Its contract names the result `path_parent` of the
/// text and, as the documentation says, gives `None` for the empty path and for the root
/// `/`. Which parent other paths have follows the target's path syntax and is left to
/// the name.
#[verifier::external_body]
pub(crate) fn parent_path(p: &str) -> (r: Option<String>)
    ensures
        match r {
            Some(q) => path_parent(p@) == Some(q@),
            None => path_parent(p@) is None,
        },
        p@.len() == 0 ==> r is None,
        p@ == seq!['/'] ==> r is None,
{
    match std::path::Path::new(p).parent() {
        Some(q) => Some(q.to_string_lossy().into_owned()),
        None => None,
    }
}

/// Calls `std::path::Path::extension`. Its contract names the result `path_extension` of
/// the text and, as the documentation says, gives `None` when the path holds no `.`.
/// Which extension other paths have (file names starting with `.`, trailing separators)
/// is left to the name.
#[verifier::external_body]
pub(crate) fn file_extension(p: &str) -> (r: Option<String>)
    ensures
        match r {
            Some(e) => path_extension(p@) == Some(e@),
            None => path_extension(p@) is None,
        },
        !p@.contains('.') ==> r is None,
{
    match std::path::Path::new(p).extension() {
        Some(e) => Some(e.to_string_lossy().into_owned()),
        None => None,
    }
}

} // verus!
