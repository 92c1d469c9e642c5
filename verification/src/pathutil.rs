//! Pure string logic over filesystem paths.
//!
//! Paths are modelled as their character sequences, with `/` as the
//! component separator. Containment checks expect both paths in canonical
//! absolute form; resolving a path to that form is filesystem work and is
//! done by the hosting application before calling in here.

use vstd::prelude::*;
use vstd::string::StrSliceExecFns;
use vstd::string::StringExecFns;

verus! {

pub open spec fn is_prefix_of(p: Seq<char>, s: Seq<char>) -> bool {
    p.len() <= s.len() && p == s.subrange(0, p.len() as int)
}

pub open spec fn is_suffix_of(p: Seq<char>, s: Seq<char>) -> bool {
    p.len() <= s.len() && p == s.subrange(s.len() - p.len(), s.len() as int)
}

/// `path` lies within the directory `dir`, component-wise: `dir` is a
/// prefix and the prefix ends on a component boundary. Both are expected
/// in canonical absolute form.
pub open spec fn spec_path_within_dir(path: Seq<char>, dir: Seq<char>) -> bool {
    &&& is_prefix_of(dir, path)
    &&& {
        ||| path.len() == dir.len()
        ||| path[dir.len() as int] == '/'
        ||| (dir.len() > 0 && dir[dir.len() - 1] == '/')
    }
}

/// Whether two string slices hold the same characters.
pub fn str_eq(a: &str, b: &str) -> (r: bool)
    ensures
        r == (a@ == b@),
{
    let sa = String::from_str(a);
    let sb = String::from_str(b);
    sa == sb
}

/// Whether `p` is a character-wise prefix of `s`.
pub fn str_has_prefix(s: &str, p: &str) -> (r: bool)
    ensures
        r == is_prefix_of(p@, s@),
{
    let n = p.unicode_len();
    let m = s.unicode_len();
    if n > m {
        return false;
    }
    let sub = s.substring_char(0, n);
    str_eq(sub, p)
}

/// Component-wise directory containment on canonical paths.
pub fn is_path_within_dir(path: &str, dir: &str) -> (r: bool)
    ensures
        r == spec_path_within_dir(path@, dir@),
{
    if !str_has_prefix(path, dir) {
        return false;
    }
    let n = dir.unicode_len();
    let m = path.unicode_len();
    if m == n {
        return true;
    }
    if path.get_char(n) == '/' {
        return true;
    }
    n > 0 && dir.get_char(n - 1) == '/'
}

/// Appends `name` to `dir` with a single separator.
pub fn join_path(dir: &str, name: &str) -> (r: String)
    ensures
        r@ == dir@ + "/"@ + name@,
{
    let s = String::from_str(dir);
    let s = s.concat("/");
    s.concat(name)
}

/// The last path component ends with `.pmtiles` and has a nonempty stem;
/// this mirrors how a filesystem path library reports an extension.
pub open spec fn spec_has_pmtiles_extension(s: Seq<char>) -> bool {
    &&& s.len() >= 9
    &&& is_suffix_of(".pmtiles"@, s)
    &&& s[s.len() - 9] != '/'
}

/// Whether the path names a file with the tile-archive extension.
pub fn has_pmtiles_extension(path: &str) -> (r: bool)
    ensures
        r == spec_has_pmtiles_extension(path@),
{
    proof {
        reveal_strlit(".pmtiles");
    }
    let m = path.unicode_len();
    if m < 9 {
        return false;
    }
    let suf = path.substring_char(m - 8, m);
    if !str_eq(suf, ".pmtiles") {
        return false;
    }
    path.get_char(m - 9) != '/'
}

/// The index where the last path component starts: just after the last
/// separator, or the whole length for an empty path or one that ends in a
/// separator.
pub open spec fn file_name_start(s: Seq<char>) -> int
    decreases s.len(),
{
    if s.len() == 0 {
        0
    } else if s[s.len() - 1] == '/' {
        s.len() as int
    } else {
        file_name_start(s.drop_last())
    }
}

/// The characters from the start of the last path component to the end.
pub open spec fn spec_file_name_value(s: Seq<char>) -> Seq<char> {
    s.subrange(file_name_start(s), s.len() as int)
}

/// The last path component, when it is nonempty.
pub open spec fn spec_file_name_of(s: Seq<char>) -> Option<Seq<char>> {
    if file_name_start(s) == s.len() {
        None
    } else {
        Some(spec_file_name_value(s))
    }
}

/// The last component starts at `i` when nothing from `i` on is a
/// separator and `i` is either the start or preceded by one.
pub proof fn lemma_file_name_start_at(s: Seq<char>, i: int)
    requires
        0 <= i <= s.len(),
        forall|j: int| i <= j < s.len() ==> s[j] != '/',
        i == 0 || s[i - 1] == '/',
    ensures
        file_name_start(s) == i,
    decreases s.len(),
{
    if s.len() == 0 {
    } else if s[s.len() - 1] == '/' {
        assert(i == s.len());
    } else {
        assert(i < s.len());
        lemma_file_name_start_at(s.drop_last(), i);
    }
}

/// The last path component, or `None` for an empty path or one that ends
/// in a separator.
pub fn file_name_of(path: &str) -> (r: Option<String>)
    ensures
        r is Some <==> spec_file_name_of(path@) is Some,
        r matches Some(name) ==> spec_file_name_of(path@) == Some(name@),
{
    let m = path.unicode_len();
    if m == 0 {
        return None;
    }
    if path.get_char(m - 1) == '/' {
        return None;
    }
    let mut i = m;
    while i > 0
        invariant
            i <= m,
            m == path@.len(),
            forall|j: int| i <= j < m ==> path@[j] != '/',
        ensures
            i <= m,
            forall|j: int| i <= j < m ==> path@[j] != '/',
            i == 0 || path@[i - 1] == '/',
        decreases i,
    {
        if path.get_char(i - 1) == '/' {
            break;
        }
        i = i - 1;
    }
    proof {
        lemma_file_name_start_at(path@, i as int);
    }
    let sub = path.substring_char(i, m);
    Some(String::from_str(sub))
}

/// `s` with its `.pmtiles` extension replaced by `.tmp`.
pub open spec fn spec_with_tmp_extension(s: Seq<char>) -> Seq<char> {
    s.subrange(0, s.len() - 8) + ".tmp"@
}

/// The distinct temporary sibling of an archive output path: the
/// `.pmtiles` extension is replaced by `.tmp`.
pub fn with_tmp_extension(path: &str) -> (r: String)
    requires
        spec_has_pmtiles_extension(path@),
    ensures
        r@ == spec_with_tmp_extension(path@),
{
    proof {
        reveal_strlit(".pmtiles");
    }
    let m = path.unicode_len();
    let stem = path.substring_char(0, m - 8);
    String::from_str(stem).concat(".tmp")
}

/// Replacing the `.pmtiles` extension by `.tmp` never yields the path
/// itself, so writes to the temporary path cannot touch the output path.
pub proof fn lemma_tmp_extension_distinct(s: Seq<char>)
    requires
        spec_has_pmtiles_extension(s),
    ensures
        spec_with_tmp_extension(s) != s,
{
    reveal_strlit(".pmtiles");
    reveal_strlit(".tmp");
    assert(spec_with_tmp_extension(s).len() == s.len() - 4);
}

} // verus!
