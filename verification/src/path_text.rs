//! Character-level helpers over path text.
//!
//! Paths are treated as opaque text: the bridge never touches the file
//! system here. It only needs to look for single characters (the comma
//! heuristic and the separator test) and to strip the last component of a
//! path, the way the Linux branch of the reveal operation resolves a file
//! to its directory.

use vstd::prelude::*;
use vstd::string::StrSliceExecFns;
use vstd::string::StringExecFns;

verus! {

/// True exactly when `c` occurs somewhere in `s`.
pub fn contains_char(s: &str, c: char) -> (found: bool)
    ensures
        found == s@.contains(c),
{
    let n = s.unicode_len();
    let mut i: usize = 0;
    while i < n
        invariant
            n == s@.len(),
            i <= n,
            forall|k: int| 0 <= k < i ==> s@[k] != c,
        decreases n - i,
    {
        if s.get_char(i) == c {
            assert(s@[i as int] == c);
            return true;
        }
        i = i + 1;
    }
    assert(!s@.contains(c));
    false
}

/// True exactly when `s` is non-empty and ends with `c`.
pub fn ends_with_char(s: &str, c: char) -> (found: bool)
    ensures
        found == (s@.len() > 0 && s@.last() == c),
{
    let n = s.unicode_len();
    if n == 0 {
        false
    } else {
        s.get_char(n - 1) == c
    }
}

/// True exactly when the two strings hold the same characters.
pub fn str_eq(a: &str, b: &str) -> (eq: bool)
    ensures
        eq == (a@ == b@),
{
    let n = a.unicode_len();
    if n != b.unicode_len() {
        return false;
    }
    let mut i: usize = 0;
    while i < n
        invariant
            n == a@.len(),
            n == b@.len(),
            i <= n,
            forall|k: int| 0 <= k < i ==> a@[k] == b@[k],
        decreases n - i,
    {
        if a.get_char(i) != b.get_char(i) {
            return false;
        }
        i = i + 1;
    }
    assert(a@ =~= b@);
    true
}

/// `p` with its trailing separators removed; a lone root separator stays.
pub open spec fn spec_trim_trailing_seps(p: Seq<char>) -> Seq<char>
    decreases p.len(),
{
    if p.len() > 1 && p.last() == '/' {
        spec_trim_trailing_seps(p.drop_last())
    } else {
        p
    }
}

/// `p` with the characters of its last component (the non-separator run at
/// the end) removed.
pub open spec fn spec_drop_last_component(p: Seq<char>) -> Seq<char>
    decreases p.len(),
{
    if p.len() > 0 && p.last() != '/' {
        spec_drop_last_component(p.drop_last())
    } else {
        p
    }
}

/// The directory that holds `p`: trailing separators go, then the last
/// component, then the separators before it. A path with no separator has
/// the empty parent; a path inside the root keeps the root separator.
pub open spec fn spec_parent_dir(p: Seq<char>) -> Seq<char> {
    spec_trim_trailing_seps(spec_drop_last_component(spec_trim_trailing_seps(p)))
}

/// Strips the last path component of `s`, as [`spec_parent_dir`] describes.
pub fn parent_dir(s: &str) -> (parent: String)
    ensures
        parent@ == spec_parent_dir(s@),
{
    let n = s.unicode_len();
    let ghost whole = s@;

    // Phase one: drop trailing separators.
    let mut end: usize = n;
    assert(whole.subrange(0, n as int) =~= whole);
    while end > 1 && s.get_char(end - 1) == '/'
        invariant
            n == whole.len(),
            end <= n,
            whole == s@,
            spec_trim_trailing_seps(whole) == spec_trim_trailing_seps(
                whole.subrange(0, end as int),
            ),
        decreases end,
    {
        proof {
            let prefix = whole.subrange(0, end as int);
            assert(prefix.drop_last() =~= whole.subrange(0, end - 1));
        }
        end = end - 1;
    }
    proof {
        let trimmed = whole.subrange(0, end as int);
        assert(spec_trim_trailing_seps(trimmed) == trimmed);
    }
    let ghost trimmed = whole.subrange(0, end as int);

    // Phase two: drop the last component.
    while end > 0 && s.get_char(end - 1) != '/'
        invariant
            n == whole.len(),
            end <= n,
            whole == s@,
            trimmed == spec_trim_trailing_seps(whole),
            spec_drop_last_component(trimmed) == spec_drop_last_component(
                whole.subrange(0, end as int),
            ),
        decreases end,
    {
        proof {
            let prefix = whole.subrange(0, end as int);
            assert(prefix.drop_last() =~= whole.subrange(0, end - 1));
        }
        end = end - 1;
    }
    proof {
        let stripped = whole.subrange(0, end as int);
        assert(spec_drop_last_component(stripped) == stripped);
    }
    let ghost stripped = whole.subrange(0, end as int);

    // Phase three: drop the separators that ended the parent run.
    while end > 1 && s.get_char(end - 1) == '/'
        invariant
            n == whole.len(),
            end <= n,
            whole == s@,
            stripped == spec_drop_last_component(spec_trim_trailing_seps(whole)),
            spec_trim_trailing_seps(stripped) == spec_trim_trailing_seps(
                whole.subrange(0, end as int),
            ),
        decreases end,
    {
        proof {
            let prefix = whole.subrange(0, end as int);
            assert(prefix.drop_last() =~= whole.subrange(0, end - 1));
        }
        end = end - 1;
    }
    proof {
        let parent = whole.subrange(0, end as int);
        assert(spec_trim_trailing_seps(parent) == parent);
    }
    String::from_str(s.substring_char(0, end))
}

} // verus!
