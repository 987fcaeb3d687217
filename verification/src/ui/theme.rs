//! The built-in themes, by identifier.
use vstd::prelude::*;

use crate::text::str_eq;

verus! {

/// The identifiers of the built-in themes, in order.
pub open spec fn spec_builtin_theme_ids() -> Seq<Seq<char>> {
    seq![
        "dark"@,
        "light"@,
        "high_contrast"@,
        "jetbrains"@,
        "visual_studio"@,
        "crema"@,
        "ide-like"@,
    ]
}

/// Returns the identifiers of the built-in themes.
pub fn builtin_theme_ids() -> (r: Vec<&'static str>)
    ensures
        r@.map_values(|s: &'static str| s@) == spec_builtin_theme_ids(),
{
    let r = vec!["dark", "light", "high_contrast", "jetbrains", "visual_studio", "crema", "ide-like"];
    assert(r@.map_values(|s: &'static str| s@) =~= spec_builtin_theme_ids());
    r
}

/// The position of a built-in theme among the identifiers; `None` for an unknown name.
pub fn builtin_theme_index(name: &str) -> (r: Option<usize>)
    ensures
        match r {
            Some(i) => i < spec_builtin_theme_ids().len() && spec_builtin_theme_ids()[i as int]
                == name@,
            None => !spec_builtin_theme_ids().contains(name@),
        },
{
    let ids = builtin_theme_ids();
    let mut i: usize = 0;
    while i < ids.len()
        invariant
            i <= ids@.len(),
            ids@.map_values(|s: &'static str| s@) == spec_builtin_theme_ids(),
            forall|j: int| 0 <= j < i ==> spec_builtin_theme_ids()[j] != name@,
        decreases ids@.len() - i,
    {
        if str_eq(ids[i], name) {
            assert(ids@.map_values(|s: &'static str| s@)[i as int] == ids@[i as int]@);
            return Some(i);
        }
        assert(ids@.map_values(|s: &'static str| s@)[i as int] == ids@[i as int]@);
        i = i + 1;
    }
    None
}

} // verus!
