//! A snapshot: the in-scope path set, the content fingerprint table, and the
//! aggregate line/character counts of a project directory, captured at one
//! instant from one walk's entries.

use vstd::prelude::*;
use crate::fingerprint::{Fingerprint, spec_lookup};
use crate::scan::{
    ScanEntry, scan_files, compute_file_hashes, count_all_content, spec_scan_paths,
    spec_hash_table, spec_total_lines, spec_total_chars, clip_i32, clip_i64, unique_path_views,
    unique_entry_paths, lemma_scan_paths_unique,
};

verus! {

/// `k` spells the same characters as one of `paths`.
pub open spec fn seq_contains_view(paths: Seq<String>, k: Seq<char>) -> bool {
    exists|i: int| 0 <= i < paths.len() && (#[trigger] paths[i])@ == k
}

/// The set of character strings spelled by `paths`.
pub open spec fn path_view_set(paths: Seq<String>) -> Set<Seq<char>> {
    Set::new(|k: Seq<char>| seq_contains_view(paths, k))
}

/// Appending one path adds exactly its characters to the set.
pub proof fn lemma_contains_view_push(paths: Seq<String>, p: String)
    ensures
        forall|k: Seq<char>|
            #[trigger] seq_contains_view(paths.push(p), k) <==> (seq_contains_view(paths, k) || k
                == p@),
{
    assert forall|k: Seq<char>|
        #[trigger] seq_contains_view(paths.push(p), k) <==> (seq_contains_view(paths, k) || k
            == p@) by {
        if seq_contains_view(paths.push(p), k) {
            let i = choose|i: int|
                0 <= i < paths.push(p).len() && (#[trigger] paths.push(p)[i])@ == k;
            if i < paths.len() {
                assert(paths[i]@ == k);
            }
        }
        if seq_contains_view(paths, k) {
            let i = choose|i: int| 0 <= i < paths.len() && (#[trigger] paths[i])@ == k;
            assert(paths.push(p)[i]@ == k);
        }
        if k == p@ {
            assert(paths.push(p)[paths.len() as int]@ == k);
        }
    }
}

/// Whether one of `paths` spells the same characters as `p`.
pub fn contains_path(paths: &Vec<String>, p: &String) -> (r: bool)
    ensures
        r == seq_contains_view(paths@, p@),
{
    let n = paths.len();
    let mut i: usize = 0;
    while i < n
        invariant
            0 <= i <= n,
            n == paths@.len(),
            forall|j: int| 0 <= j < i ==> (#[trigger] paths@[j])@ != p@,
        decreases n - i,
    {
        if paths[i] == *p {
            return true;
        }
        i += 1;
    }
    false
}

/// What one walk of the project directory found: the in-scope paths, their
/// content fingerprints, and the aggregate line and character counts.
pub struct Snapshot {
    pub paths: Vec<String>,
    pub hashes: Vec<Fingerprint>,
    pub line_count: i32,
    pub char_count: i64,
}

impl Snapshot {
    /// Well-formed: pairwise distinct paths, non-negative counts.
    pub open spec fn wf(self) -> bool {
        &&& unique_path_views(self.paths@)
        &&& 0 <= self.line_count
        &&& 0 <= self.char_count
    }

    /// The snapshot's path set.
    pub open spec fn path_set(self) -> Set<Seq<char>> {
        path_view_set(self.paths@)
    }

    /// The hash the snapshot's fingerprint table records for `k`, if any.
    pub open spec fn lookup(self, k: Seq<char>) -> Option<u64> {
        spec_lookup(self.hashes@, k)
    }

    /// Captures a snapshot from one walk's entries: the in-scope paths, their
    /// fingerprints, and the total line and character counts.
    pub fn from_entries(entries: &Vec<ScanEntry>) -> (s: Snapshot)
        requires
            unique_entry_paths(entries@),
        ensures
            s.wf(),
            s.paths@ == spec_scan_paths(entries@),
            s.hashes@ == spec_hash_table(entries@),
            s.line_count as int == clip_i32(spec_total_lines(entries@)),
            s.char_count as int == clip_i64(spec_total_chars(entries@)),
    {
        proof {
            lemma_scan_paths_unique(entries@);
        }
        let paths = scan_files(entries);
        let hashes = compute_file_hashes(entries);
        let (line_count, char_count) = count_all_content(entries);
        Snapshot { paths, hashes, line_count, char_count }
    }
}

} // verus!
