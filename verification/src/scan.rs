//! Content scanner aggregation: counting lines and Unicode characters of the
//! in-scope, readable files met during a directory walk, listing the in-scope
//! paths, and building the fingerprint table.
//!
//! The walk itself is filesystem work done outside this crate; it hands in one
//! [`ScanEntry`] per regular file it met, with the outcome of attempting to
//! read that file as text. An unreadable file (binary content, a transient
//! race with outside mutation) carries `None` and contributes nothing to
//! counts or fingerprints: that silent-skip policy is deliberate, not an
//! error.

use vstd::prelude::*;
use vstd::string::StrSliceExecFns;
use crate::classify::{spec_file_in_scope, file_in_scope};
use crate::fingerprint::{Fingerprint, spec_fingerprint, fingerprint_content};

verus! {

/// One regular file met during a directory walk: its full path, its file name
/// (the final path component, which the classifier judges), and the result of
/// attempting to read it as text (`None` when the read or decode failed).
pub struct ScanEntry {
    pub path: String,
    pub name: String,
    pub content: Option<String>,
}

/// Number of line-feed characters in `s`.
pub open spec fn spec_newline_count(s: Seq<char>) -> int
    decreases s.len(),
{
    if s.len() == 0 {
        0
    } else {
        spec_newline_count(s.drop_last()) + if s.last() == '\n' {
            1int
        } else {
            0int
        }
    }
}

/// Line count of a text: every line-terminated segment counts, and a trailing
/// unterminated final line still counts as one line.
pub open spec fn spec_line_count(s: Seq<char>) -> int {
    spec_newline_count(s) + if s.len() > 0 && s.last() != '\n' {
        1int
    } else {
        0int
    }
}

proof fn lemma_newline_count_bounds(s: Seq<char>)
    ensures
        0 <= spec_newline_count(s) <= s.len(),
    decreases s.len(),
{
    if s.len() > 0 {
        lemma_newline_count_bounds(s.drop_last());
    }
}

/// Line count of `s` exactly as [`spec_line_count`] states it.
pub fn count_lines(s: &str) -> (n: usize)
    ensures
        n as int == spec_line_count(s@),
{
    let len = s.unicode_len();
    assert(s@.subrange(0, 0) =~= Seq::<char>::empty());
    let mut cnt: usize = 0;
    let mut i: usize = 0;
    while i < len
        invariant
            0 <= i <= len,
            len == s@.len(),
            cnt as int == spec_newline_count(s@.subrange(0, i as int)),
            cnt <= i,
        decreases len - i,
    {
        proof {
            assert(s@.subrange(0, i + 1).drop_last() =~= s@.subrange(0, i as int));
            assert(s@.subrange(0, i + 1).last() == s@[i as int]);
        }
        if s.get_char(i) == '\n' {
            cnt += 1;
        }
        i += 1;
    }
    assert(s@.subrange(0, len as int) =~= s@);
    if len > 0 && s.get_char(len - 1) != '\n' {
        proof {
            lemma_newline_count_bounds(s@.drop_last());
            assert(spec_newline_count(s@) == spec_newline_count(s@.drop_last()));
        }
        cnt + 1
    } else {
        cnt
    }
}

/// An entry contributes to counts and fingerprints iff its name is in scope
/// and its content could be read.
pub open spec fn spec_counted(e: ScanEntry) -> bool {
    spec_file_in_scope(e.name@) && e.content is Some
}

/// The characters of an entry's content, empty when unreadable.
pub open spec fn spec_content_chars(e: ScanEntry) -> Seq<char> {
    match e.content {
        Some(c) => c@,
        None => Seq::<char>::empty(),
    }
}

/// Sum of the line counts of the counted entries.
pub open spec fn spec_total_lines(entries: Seq<ScanEntry>) -> int
    decreases entries.len(),
{
    if entries.len() == 0 {
        0
    } else {
        spec_total_lines(entries.drop_last()) + if spec_counted(entries.last()) {
            spec_line_count(spec_content_chars(entries.last()))
        } else {
            0int
        }
    }
}

/// Sum of the character counts of the counted entries.
pub open spec fn spec_total_chars(entries: Seq<ScanEntry>) -> int
    decreases entries.len(),
{
    if entries.len() == 0 {
        0
    } else {
        spec_total_chars(entries.drop_last()) + if spec_counted(entries.last()) {
            spec_content_chars(entries.last()).len() as int
        } else {
            0int
        }
    }
}

pub proof fn lemma_totals_nonneg(entries: Seq<ScanEntry>)
    ensures
        0 <= spec_total_lines(entries),
        0 <= spec_total_chars(entries),
    decreases entries.len(),
{
    if entries.len() > 0 {
        lemma_totals_nonneg(entries.drop_last());
        lemma_newline_count_bounds(spec_content_chars(entries.last()));
    }
}

/// A total clipped into `i32`: the exact sum where it fits, `i32::MAX` else.
pub open spec fn clip_i32(x: int) -> int {
    if x > i32::MAX {
        i32::MAX as int
    } else {
        x
    }
}

/// A total clipped into `i64`: the exact sum where it fits, `i64::MAX` else.
pub open spec fn clip_i64(x: int) -> int {
    if x > i64::MAX {
        i64::MAX as int
    } else {
        x
    }
}

fn add_lines_sat(total: i32, add: usize) -> (r: i32)
    requires
        0 <= total,
    ensures
        r as int == clip_i32(total as int + add as int),
        0 <= r,
{
    let room: usize = (i32::MAX - total) as usize;
    if add >= room {
        i32::MAX
    } else {
        total + (add as i32)
    }
}

fn add_chars_sat(total: i64, add: usize) -> (r: i64)
    requires
        0 <= total,
    ensures
        r as int == clip_i64(total as int + add as int),
        0 <= r,
{
    let room: u64 = (i64::MAX - total) as u64;
    if (add as u64) >= room {
        i64::MAX
    } else {
        total + (add as i64)
    }
}

/// Total line and character counts over the walk's entries: the sums over the
/// in-scope readable files, clipped into the counters' ranges.
pub fn count_all_content(entries: &Vec<ScanEntry>) -> (r: (i32, i64))
    ensures
        r.0 as int == clip_i32(spec_total_lines(entries@)),
        r.1 as int == clip_i64(spec_total_chars(entries@)),
        0 <= r.0,
        0 <= r.1,
{
    let n = entries.len();
    let mut lines: i32 = 0;
    let mut chars: i64 = 0;
    assert(entries@.subrange(0, 0) =~= Seq::<ScanEntry>::empty());
    let mut i: usize = 0;
    while i < n
        invariant
            0 <= i <= n,
            n == entries@.len(),
            0 <= lines,
            0 <= chars,
            lines as int == clip_i32(spec_total_lines(entries@.subrange(0, i as int))),
            chars as int == clip_i64(spec_total_chars(entries@.subrange(0, i as int))),
        decreases n - i,
    {
        proof {
            assert(entries@.subrange(0, i + 1).drop_last() =~= entries@.subrange(0, i as int));
            assert(entries@.subrange(0, i + 1).last() == entries@[i as int]);
            lemma_totals_nonneg(entries@.subrange(0, i as int));
            lemma_newline_count_bounds(spec_content_chars(entries@[i as int]));
        }
        if file_in_scope(entries[i].name.as_str()) {
            match &entries[i].content {
                Some(c) => {
                    let lc = count_lines(c.as_str());
                    let cc = c.as_str().unicode_len();
                    lines = add_lines_sat(lines, lc);
                    chars = add_chars_sat(chars, cc);
                },
                None => {},
            }
        }
        i += 1;
    }
    assert(entries@.subrange(0, n as int) =~= entries@);
    (lines, chars)
}

/// The in-scope paths of the walk's entries, in walk order. Readability does
/// not matter here: an unreadable in-scope file is still a present path.
pub open spec fn spec_scan_paths(entries: Seq<ScanEntry>) -> Seq<String>
    decreases entries.len(),
{
    if entries.len() == 0 {
        Seq::<String>::empty()
    } else {
        let rest = spec_scan_paths(entries.drop_last());
        if spec_file_in_scope(entries.last().name@) {
            rest.push(entries.last().path)
        } else {
            rest
        }
    }
}

/// Lists the in-scope paths among the walk's entries.
pub fn scan_files(entries: &Vec<ScanEntry>) -> (paths: Vec<String>)
    ensures
        paths@ == spec_scan_paths(entries@),
{
    let n = entries.len();
    let mut out: Vec<String> = Vec::new();
    assert(entries@.subrange(0, 0) =~= Seq::<ScanEntry>::empty());
    let mut i: usize = 0;
    while i < n
        invariant
            0 <= i <= n,
            n == entries@.len(),
            out@ == spec_scan_paths(entries@.subrange(0, i as int)),
        decreases n - i,
    {
        proof {
            assert(entries@.subrange(0, i + 1).drop_last() =~= entries@.subrange(0, i as int));
            assert(entries@.subrange(0, i + 1).last() == entries@[i as int]);
        }
        if file_in_scope(entries[i].name.as_str()) {
            out.push(entries[i].path.clone());
        }
        i += 1;
    }
    assert(entries@.subrange(0, n as int) =~= entries@);
    out
}

/// The fingerprint table of the walk's entries: one fingerprint per in-scope
/// readable file, hashing the content that was read.
pub open spec fn spec_hash_table(entries: Seq<ScanEntry>) -> Seq<Fingerprint>
    decreases entries.len(),
{
    if entries.len() == 0 {
        Seq::<Fingerprint>::empty()
    } else {
        let rest = spec_hash_table(entries.drop_last());
        if spec_counted(entries.last()) {
            rest.push(
                Fingerprint {
                    path: entries.last().path,
                    hash: spec_fingerprint(spec_content_chars(entries.last())),
                },
            )
        } else {
            rest
        }
    }
}

/// Builds the fingerprint table over the walk's entries.
pub fn compute_file_hashes(entries: &Vec<ScanEntry>) -> (fps: Vec<Fingerprint>)
    ensures
        fps@ == spec_hash_table(entries@),
{
    let n = entries.len();
    let mut out: Vec<Fingerprint> = Vec::new();
    assert(entries@.subrange(0, 0) =~= Seq::<ScanEntry>::empty());
    let mut i: usize = 0;
    while i < n
        invariant
            0 <= i <= n,
            n == entries@.len(),
            out@ == spec_hash_table(entries@.subrange(0, i as int)),
        decreases n - i,
    {
        proof {
            assert(entries@.subrange(0, i + 1).drop_last() =~= entries@.subrange(0, i as int));
            assert(entries@.subrange(0, i + 1).last() == entries@[i as int]);
        }
        if file_in_scope(entries[i].name.as_str()) {
            match &entries[i].content {
                Some(c) => {
                    let h = fingerprint_content(c.as_str());
                    out.push(Fingerprint { path: entries[i].path.clone(), hash: h });
                },
                None => {},
            }
        }
        i += 1;
    }
    assert(entries@.subrange(0, n as int) =~= entries@);
    out
}

/// No two of these paths spell the same characters.
pub open spec fn unique_path_views(paths: Seq<String>) -> bool {
    forall|i: int, j: int| 0 <= i < j < paths.len() ==> paths[i]@ != paths[j]@
}

/// No two entries carry the same path.
pub open spec fn unique_entry_paths(entries: Seq<ScanEntry>) -> bool {
    forall|i: int, j: int| 0 <= i < j < entries.len() ==> entries[i].path@ != entries[j].path@
}

/// `p` is the path of one of the entries.
pub open spec fn is_entry_path(entries: Seq<ScanEntry>, p: String) -> bool {
    exists|j: int| 0 <= j < entries.len() && p == (#[trigger] entries[j]).path
}

/// Every scanned path is the path of one of the entries.
pub proof fn lemma_scan_paths_from_entries(entries: Seq<ScanEntry>)
    ensures
        forall|k: int|
            0 <= k < spec_scan_paths(entries).len() ==> is_entry_path(
                entries,
                #[trigger] spec_scan_paths(entries)[k],
            ),
    decreases entries.len(),
{
    if entries.len() > 0 {
        let butlast = entries.drop_last();
        lemma_scan_paths_from_entries(butlast);
        let rest = spec_scan_paths(butlast);
        let all = spec_scan_paths(entries);
        assert forall|k: int| 0 <= k < all.len() implies is_entry_path(entries, all[k]) by {
            if k < rest.len() {
                let j = choose|j: int| 0 <= j < butlast.len() && rest[k] == (#[trigger] butlast[j]).path;
                assert(0 <= j < entries.len() && all[k] == entries[j].path);
            } else {
                let j = entries.len() - 1;
                assert(0 <= j < entries.len() && all[k] == entries[j].path);
            }
        }
    }
}

/// A walk with pairwise distinct paths yields a scanned path list with
/// pairwise distinct paths.
pub proof fn lemma_scan_paths_unique(entries: Seq<ScanEntry>)
    requires
        unique_entry_paths(entries),
    ensures
        unique_path_views(spec_scan_paths(entries)),
    decreases entries.len(),
{
    if entries.len() > 0 {
        let butlast = entries.drop_last();
        assert(unique_entry_paths(butlast));
        lemma_scan_paths_unique(butlast);
        lemma_scan_paths_from_entries(butlast);
        let rest = spec_scan_paths(butlast);
        let all = spec_scan_paths(entries);
        assert forall|i: int, j: int| 0 <= i < j < all.len() implies all[i]@ != all[j]@ by {
            if j < rest.len() {
                assert(all[i]@ != all[j]@);
            } else if j == rest.len() && rest.len() < all.len() {
                assert(is_entry_path(butlast, rest[i]));
                let e = choose|m: int| 0 <= m < butlast.len() && rest[i] == (#[trigger] butlast[m]).path;
                assert(entries[e].path@ != entries[entries.len() - 1].path@);
            }
        }
    }
}

/// Checks whether the walk's entries carry pairwise distinct paths.
pub fn entry_paths_unique(entries: &Vec<ScanEntry>) -> (b: bool)
    ensures
        b == unique_entry_paths(entries@),
{
    let n = entries.len();
    let mut i: usize = 0;
    while i < n
        invariant
            0 <= i <= n,
            n == entries@.len(),
            forall|p: int, q: int| 0 <= p < q < i ==> entries@[p].path@ != entries@[q].path@,
        decreases n - i,
    {
        let mut j: usize = 0;
        while j < i
            invariant
                0 <= j <= i < n,
                n == entries@.len(),
                forall|p: int, q: int| 0 <= p < q < i ==> entries@[p].path@ != entries@[q].path@,
                forall|p: int| 0 <= p < j ==> entries@[p].path@ != entries@[i as int].path@,
            decreases i - j,
        {
            if entries[j].path == entries[i].path {
                return false;
            }
            j += 1;
        }
        i += 1;
    }
    true
}

} // verus!
