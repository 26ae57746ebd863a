//! File classifier: decides which filesystem entries are in scope.
//!
//! A path component whose name starts with `.` puts the whole subtree (for a
//! directory) or the file itself out of scope. A regular file is in scope iff
//! its extension, ASCII-lower-cased, is on a fixed allow-list of source-code
//! and text/markup/config extensions. The verdict is a pure function of the
//! path's characters.

use vstd::prelude::*;
use vstd::string::StrSliceExecFns;

verus! {

/// A name is hidden when it starts with `.`.
pub open spec fn spec_hidden_name(name: Seq<char>) -> bool {
    name.len() > 0 && name[0] == '.'
}

/// ASCII lower-casing of one character.
pub open spec fn spec_lower_char(c: char) -> char {
    if 'A' <= c && c <= 'Z' {
        (((c as u8) + 32) as char)
    } else {
        c
    }
}

/// ASCII lower-casing of a whole string.
pub open spec fn spec_lower(s: Seq<char>) -> Seq<char> {
    Seq::new(s.len(), |i: int| spec_lower_char(s[i]))
}

/// Index of the last `.` in `s`, if any.
pub open spec fn spec_last_dot(s: Seq<char>) -> Option<int>
    decreases s.len(),
{
    if s.len() == 0 {
        None
    } else if s[s.len() - 1] == '.' {
        Some(s.len() - 1)
    } else {
        spec_last_dot(s.drop_last())
    }
}

/// The extension of a file name: the part after the last `.`, provided that
/// dot is not the leading character (a name such as `.bashrc` has none).
pub open spec fn spec_extension(name: Seq<char>) -> Option<Seq<char>> {
    match spec_last_dot(name) {
        Some(d) => if d > 0 {
            Some(name.subrange(d + 1, name.len() as int))
        } else {
            None
        },
        None => None,
    }
}

/// The extension allow-list, compared after ASCII lower-casing.
pub open spec fn spec_ext_allowed(ext: Seq<char>) -> bool {
    ||| spec_lower(ext) == "rs"@
    ||| spec_lower(ext) == "txt"@
    ||| spec_lower(ext) == "md"@
    ||| spec_lower(ext) == "py"@
    ||| spec_lower(ext) == "js"@
    ||| spec_lower(ext) == "html"@
    ||| spec_lower(ext) == "css"@
    ||| spec_lower(ext) == "c"@
    ||| spec_lower(ext) == "cpp"@
    ||| spec_lower(ext) == "h"@
    ||| spec_lower(ext) == "hpp"@
    ||| spec_lower(ext) == "java"@
    ||| spec_lower(ext) == "json"@
    ||| spec_lower(ext) == "yaml"@
    ||| spec_lower(ext) == "yml"@
    ||| spec_lower(ext) == "toml"@
}

/// A file name is in scope iff it is not hidden and its extension,
/// lower-cased, is on the allow-list.
pub open spec fn spec_file_in_scope(name: Seq<char>) -> bool {
    &&& !spec_hidden_name(name)
    &&& match spec_extension(name) {
        Some(ext) => spec_ext_allowed(ext),
        None => false,
    }
}

/// A whole path, given as its components, is in scope iff no component is
/// hidden and the final component is an in-scope file name.
pub open spec fn spec_path_in_scope(components: Seq<Seq<char>>) -> bool {
    &&& components.len() > 0
    &&& forall|i: int| 0 <= i < components.len() ==> !spec_hidden_name(components[i])
    &&& spec_file_in_scope(components[components.len() - 1])
}

/// True iff `name` starts with `.`; directories with such names are pruned
/// whole, files with such names are out of scope.
pub fn is_hidden_name(name: &str) -> (r: bool)
    ensures
        r == spec_hidden_name(name@),
{
    name.unicode_len() > 0 && name.get_char(0) == '.'
}

/// ASCII lower-casing of one character.
fn lower_char(c: char) -> (r: char)
    ensures
        r == spec_lower_char(c),
{
    if 'A' <= c && c <= 'Z' {
        ((c as u8) + 32) as char
    } else {
        c
    }
}

/// True iff `s`, ASCII-lower-cased, equals `lit`.
fn eq_lower(s: &str, lit: &str) -> (r: bool)
    ensures
        r == (spec_lower(s@) == lit@),
{
    let n = s.unicode_len();
    if n != lit.unicode_len() {
        assert(spec_lower(s@).len() == s@.len());
        return false;
    }
    let mut i: usize = 0;
    while i < n
        invariant
            0 <= i <= n,
            n == s@.len(),
            n == lit@.len(),
            forall|j: int| 0 <= j < i ==> spec_lower_char(s@[j]) == lit@[j],
        decreases n - i,
    {
        if lower_char(s.get_char(i)) != lit.get_char(i) {
            assert(spec_lower(s@)[i as int] != lit@[i as int]);
            return false;
        }
        i += 1;
    }
    assert(spec_lower(s@) =~= lit@);
    true
}

/// A last-dot index is a real index of `s` and holds a dot.
proof fn lemma_last_dot_bounds(s: Seq<char>)
    ensures
        match spec_last_dot(s) {
            Some(d) => 0 <= d < s.len() && s[d] == '.',
            None => true,
        },
    decreases s.len(),
{
    if s.len() > 0 && s[s.len() - 1] != '.' {
        lemma_last_dot_bounds(s.drop_last());
    }
}

/// The index of the last `.` in `name`, if any.
fn last_dot(name: &str) -> (r: Option<usize>)
    ensures
        match r {
            Some(d) => spec_last_dot(name@) == Some(d as int),
            None => spec_last_dot(name@) is None,
        },
{
    let n = name.unicode_len();
    assert(name@.subrange(0, n as int) =~= name@);
    let mut i: usize = n;
    while i > 0
        invariant
            0 <= i <= n,
            n == name@.len(),
            spec_last_dot(name@) == spec_last_dot(name@.subrange(0, i as int)),
        decreases i,
    {
        if name.get_char(i - 1) == '.' {
            assert(name@.subrange(0, i as int)[i - 1] == '.');
            return Some(i - 1);
        }
        proof {
            assert(name@.subrange(0, i as int).drop_last() =~= name@.subrange(
                0,
                i as int - 1,
            ));
        }
        i -= 1;
    }
    assert(name@.subrange(0, 0) =~= Seq::<char>::empty());
    None
}

/// True iff the lower-cased extension is on the allow-list.
pub fn ext_allowed(ext: &str) -> (r: bool)
    ensures
        r == spec_ext_allowed(ext@),
{
    eq_lower(ext, "rs") || eq_lower(ext, "txt") || eq_lower(ext, "md") || eq_lower(ext, "py")
        || eq_lower(ext, "js") || eq_lower(ext, "html") || eq_lower(ext, "css") || eq_lower(
        ext,
        "c",
    ) || eq_lower(ext, "cpp") || eq_lower(ext, "h") || eq_lower(ext, "hpp") || eq_lower(
        ext,
        "java",
    ) || eq_lower(ext, "json") || eq_lower(ext, "yaml") || eq_lower(ext, "yml") || eq_lower(
        ext,
        "toml",
    )
}

/// Classifier verdict for one file name: pure and deterministic, a function of
/// the name's characters alone.
pub fn file_in_scope(name: &str) -> (r: bool)
    ensures
        r == spec_file_in_scope(name@),
{
    if is_hidden_name(name) {
        return false;
    }
    match last_dot(name) {
        Some(d) => {
            proof {
                lemma_last_dot_bounds(name@);
            }
            if d > 0 {
                let n = name.unicode_len();
                let ext = name.substring_char(d + 1, n);
                ext_allowed(ext)
            } else {
                false
            }
        },
        None => false,
    }
}

/// Classifier verdict for a whole path given as components: no hidden
/// component anywhere, and an in-scope file name at the end.
pub fn path_in_scope(components: &Vec<String>) -> (r: bool)
    ensures
        r == spec_path_in_scope(components.deep_view()),
{
    let n = components.len();
    if n == 0 {
        return false;
    }
    let mut i: usize = 0;
    while i < n
        invariant
            0 <= i <= n,
            n == components.len(),
            components.deep_view().len() == n,
            forall|j: int| 0 <= j < n ==> components.deep_view()[j] == components[j]@,
            forall|j: int| 0 <= j < i ==> !spec_hidden_name(components.deep_view()[j]),
        decreases n - i,
    {
        if is_hidden_name(components[i].as_str()) {
            assert(spec_hidden_name(components.deep_view()[i as int]));
            return false;
        }
        i += 1;
    }
    file_in_scope(components[n - 1].as_str())
}

/// Idempotent classification: the verdict is a pure function of the path's
/// characters, so two path values spelling the same components — however and
/// whenever they were built — get the same verdict, and repeated calls agree.
pub proof fn lemma_classification_deterministic(a: Vec<String>, b: Vec<String>)
    requires
        a.deep_view() == b.deep_view(),
    ensures
        spec_path_in_scope(a.deep_view()) == spec_path_in_scope(b.deep_view()),
{
}

} // verus!
