//! Character-level string helpers shared by the git model, the reducer and the UI logic.
use vstd::prelude::*;

verus! {

/// The texts of a list of strings.
pub open spec fn texts(s: Seq<String>) -> Seq<Seq<char>> {
    s.map_values(|x: String| x@)
}

/// Unicode `White_Space` code points, the set `char::is_whitespace` tests for.
pub open spec fn is_unicode_whitespace(c: char) -> bool {
    let u = c as u32;
    ||| 0x09 <= u <= 0x0D
    ||| u == 0x20
    ||| u == 0x85
    ||| u == 0xA0
    ||| u == 0x1680
    ||| 0x2000 <= u <= 0x200A
    ||| u == 0x2028
    ||| u == 0x2029
    ||| u == 0x202F
    ||| u == 0x205F
    ||| u == 0x3000
}

/// A text is blank when trimming its white space leaves nothing.
pub open spec fn spec_is_blank(s: Seq<char>) -> bool {
    forall|i: int| 0 <= i < s.len() ==> is_unicode_whitespace(#[trigger] s[i])
}

/// The first `n` characters of `s` (all of them when `s` is shorter).
pub open spec fn spec_take_chars(s: Seq<char>, n: nat) -> Seq<char> {
    if n <= s.len() {
        s.take(n as int)
    } else {
        s
    }
}

/// Index of the first occurrence of `c` in `s`, if any.
pub open spec fn first_index_of(s: Seq<char>, c: char) -> Option<int> {
    if exists|i: int| 0 <= i < s.len() && s[i] == c {
        let k = choose|i: int|
            0 <= i < s.len() && s[i] == c && forall|j: int| 0 <= j < i ==> s[j] != c;
        Some(k)
    } else {
        None
    }
}

/// `str::split_once(c)`: the text before and after the first `c`.
pub open spec fn spec_split_once(s: Seq<char>, c: char) -> Option<(Seq<char>, Seq<char>)> {
    match first_index_of(s, c) {
        Some(k) => Some((s.take(k), s.skip(k + 1))),
        None => None,
    }
}

/// First line of a text as `str::lines().next()` yields it, or the empty text when
/// there is none: the characters before the first `'\n'`, without a `'\r'` that
/// ends them; the whole text when it holds no `'\n'`.
pub open spec fn spec_first_line(s: Seq<char>) -> Seq<char> {
    match first_index_of(s, '\n') {
        Some(k) => if k > 0 && s[k - 1] == '\r' {
            s.take(k - 1)
        } else {
            s.take(k)
        },
        None => s,
    }
}

/// Whether `c` is a white-space code point (`char::is_whitespace`).
pub fn is_whitespace_char(c: char) -> (r: bool)
    ensures
        r == is_unicode_whitespace(c),
{
    let u = c as u32;
    (0x09 <= u && u <= 0x0D) || u == 0x20 || u == 0x85 || u == 0xA0 || u == 0x1680 || (0x2000
        <= u && u <= 0x200A) || u == 0x2028 || u == 0x2029 || u == 0x202F || u == 0x205F || u
        == 0x3000
}

/// Whether the text is empty once its leading and trailing white space is trimmed.
pub fn is_blank(s: &str) -> (r: bool)
    ensures
        r == spec_is_blank(s@),
{
    let n = s.unicode_len();
    let mut i: usize = 0;
    while i < n
        invariant
            n == s@.len(),
            i <= n,
            forall|j: int| 0 <= j < i ==> is_unicode_whitespace(#[trigger] s@[j]),
        decreases n - i,
    {
        let c = s.get_char(i);
        if !is_whitespace_char(c) {
            return false;
        }
        i = i + 1;
    }
    true
}

/// Index of the first `c` in `s`.
pub fn find_char(s: &str, c: char) -> (r: Option<usize>)
    ensures
        match r {
            Some(k) => {
                &&& first_index_of(s@, c) == Some(k as int)
                &&& k < s@.len()
                &&& s@[k as int] == c
                &&& forall|j: int| 0 <= j < k ==> s@[j] != c
            },
            None => first_index_of(s@, c) is None && !s@.contains(c),
        },
{
    let n = s.unicode_len();
    let mut i: usize = 0;
    while i < n
        invariant
            n == s@.len(),
            i <= n,
            forall|j: int| 0 <= j < i ==> s@[j] != c,
        decreases n - i,
    {
        if s.get_char(i) == c {
            assert(s@[i as int] == c);
            proof {
                let k = choose|k: int|
                    0 <= k < s@.len() && s@[k] == c && forall|j: int| 0 <= j < k ==> s@[j] != c;
                assert(k == i) by {
                    if k < i {
                    } else if k > i {
                        assert(s@[i as int] != c);
                    }
                }
            }
            return Some(i);
        }
        i = i + 1;
    }
    None
}

/// Whether `s` holds the character `c`.
pub fn contains_char(s: &str, c: char) -> (r: bool)
    ensures
        r == s@.contains(c),
{
    match find_char(s, c) {
        Some(k) => {
            assert(s@[k as int] == c);
            true
        },
        None => false,
    }
}

/// The first `n` characters of `s`, as `s.chars().take(n).collect()` gives them.
pub fn take_chars(s: &str, n: usize) -> (r: String)
    ensures
        r@ == spec_take_chars(s@, n as nat),
{
    let len = s.unicode_len();
    let end = if n < len {
        n
    } else {
        len
    };
    let part = s.substring_char(0, end);
    let r = part.to_owned();
    proof {
        if n <= s@.len() {
        } else {
            assert(s@.subrange(0, s@.len() as int) =~= s@);
        }
    }
    r
}

/// `str::split_once(c)`, with both halves owned.
pub fn split_once_char(s: &str, c: char) -> (r: Option<(String, String)>)
    ensures
        match (r, spec_split_once(s@, c)) {
            (Some((a, b)), Some((x, y))) => a@ == x && b@ == y,
            (None, None) => true,
            _ => false,
        },
{
    match find_char(s, c) {
        Some(k) => {
            let len = s.unicode_len();
            let before = s.substring_char(0, k).to_owned();
            let after = s.substring_char(k + 1, len).to_owned();
            assert(s@.subrange(k + 1, len as int) =~= s@.skip(k + 1));
            Some((before, after))
        },
        None => None,
    }
}

/// The first line of a text (`s.lines().next().unwrap_or("")`).
pub fn first_line(s: &str) -> (r: String)
    ensures
        r@ == spec_first_line(s@),
{
    match find_char(s, '\n') {
        Some(k) => {
            if k > 0 && s.get_char(k - 1) == '\r' {
                s.substring_char(0, k - 1).to_owned()
            } else {
                s.substring_char(0, k).to_owned()
            }
        },
        None => {
            let len = s.unicode_len();
            let r = s.substring_char(0, len).to_owned();
            assert(s@.subrange(0, len as int) =~= s@);
            r
        },
    }
}

/// `a` followed by `b`, as a new string.
pub fn concat_str(a: &str, b: &str) -> (r: String)
    ensures
        r@ == a@ + b@,
{
    a.to_owned().concat(b)
}

/// Whether two texts are equal, character by character.
pub fn str_eq(a: &str, b: &str) -> (r: bool)
    ensures
        r == (a@ == b@),
{
    let n = a.unicode_len();
    if n != b.unicode_len() {
        return false;
    }
    let mut i: usize = 0;
    while i < n
        invariant
            n == a@.len(),
            n == b@.len(),
            i <= n,
            forall|j: int| 0 <= j < i ==> a@[j] == b@[j],
        decreases n - i,
    {
        if a.get_char(i) != b.get_char(i) {
            return false;
        }
        i = i + 1;
    }
    assert(a@ =~= b@);
    true
}

/// Whether the list holds a string with the text `p`.
pub fn contains_text(list: &Vec<String>, p: &str) -> (r: bool)
    ensures
        r == texts(list@).contains(p@),
{
    let mut i: usize = 0;
    while i < list.len()
        invariant
            i <= list@.len(),
            forall|j: int| 0 <= j < i ==> list@[j]@ != p@,
        decreases list@.len() - i,
    {
        if str_eq(list[i].as_str(), p) {
            assert(texts(list@)[i as int] == p@);
            return true;
        }
        i = i + 1;
    }
    assert(!texts(list@).contains(p@)) by {
        if texts(list@).contains(p@) {
            let j = choose|j: int| 0 <= j < texts(list@).len() && texts(list@)[j] == p@;
            assert(list@[j]@ == p@);
        }
    }
    false
}

} // verus!
