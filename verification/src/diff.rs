//! Snapshot differ: classifies every path of two snapshots into created,
//! deleted, modified or (implicitly) unchanged, by pure set computation. A
//! path present in both snapshots whose hash is missing on either side
//! (because the read failed there) is deliberately not counted as modified:
//! unreadable means assumed unchanged.

use vstd::prelude::*;
use crate::fingerprint::{Fingerprint, spec_lookup, lookup_hash};
use crate::scan::unique_path_views;
use crate::snapshot::{
    Snapshot, seq_contains_view, path_view_set, lemma_contains_view_push, contains_path,
};

verus! {

/// Paths of the final snapshot that the initial one lacks.
pub open spec fn spec_created(init_paths: Seq<String>, fin_paths: Seq<String>) -> Set<Seq<char>> {
    path_view_set(fin_paths).difference(path_view_set(init_paths))
}

/// Paths of the initial snapshot that the final one lacks.
pub open spec fn spec_deleted(init_paths: Seq<String>, fin_paths: Seq<String>) -> Set<Seq<char>> {
    path_view_set(init_paths).difference(path_view_set(fin_paths))
}

/// Paths present in both snapshots.
pub open spec fn spec_common(init_paths: Seq<String>, fin_paths: Seq<String>) -> Set<Seq<char>> {
    path_view_set(init_paths).intersect(path_view_set(fin_paths))
}

/// A common path counts as modified iff both fingerprint tables record a hash
/// for it and the two hashes differ.
pub open spec fn spec_modified_at(
    fin_paths: Seq<String>,
    init_fps: Seq<Fingerprint>,
    fin_fps: Seq<Fingerprint>,
    k: Seq<char>,
) -> bool {
    &&& seq_contains_view(fin_paths, k)
    &&& match (spec_lookup(init_fps, k), spec_lookup(fin_fps, k)) {
        (Some(a), Some(b)) => a != b,
        _ => false,
    }
}

/// Paths present in both snapshots whose recorded hashes differ.
pub open spec fn spec_modified(
    init_paths: Seq<String>,
    fin_paths: Seq<String>,
    init_fps: Seq<Fingerprint>,
    fin_fps: Seq<Fingerprint>,
) -> Set<Seq<char>> {
    Set::new(
        |k: Seq<char>|
            seq_contains_view(init_paths, k) && spec_modified_at(fin_paths, init_fps, fin_fps, k),
    )
}

/// The paths of `a` that `b` lacks, each once.
pub(crate) fn paths_minus(a: &Vec<String>, b: &Vec<String>) -> (r: Vec<String>)
    requires
        unique_path_views(a@),
    ensures
        unique_path_views(r@),
        path_view_set(r@) == path_view_set(a@).difference(path_view_set(b@)),
{
    let n = a.len();
    let mut out: Vec<String> = Vec::new();
    assert(a@.subrange(0, 0) =~= Seq::<String>::empty());
    let mut i: usize = 0;
    while i < n
        invariant
            0 <= i <= n,
            n == a@.len(),
            unique_path_views(a@),
            unique_path_views(out@),
            forall|k: Seq<char>|
                #[trigger] seq_contains_view(out@, k) <==> (seq_contains_view(
                    a@.subrange(0, i as int),
                    k,
                ) && !seq_contains_view(b@, k)),
        decreases n - i,
    {
        proof {
            assert(a@.subrange(0, i + 1) =~= a@.subrange(0, i as int).push(a@[i as int]));
            lemma_contains_view_push(a@.subrange(0, i as int), a@[i as int]);
        }
        if !contains_path(b, &a[i]) {
            proof {
                if seq_contains_view(out@, a@[i as int]@) {
                    let j = choose|j: int|
                        0 <= j < i && (#[trigger] a@.subrange(0, i as int)[j])@ == a@[i as int]@;
                    assert(a@[j]@ == a@[i as int]@);
                    assert(false);
                }
                lemma_contains_view_push(out@, a@[i as int]);
            }
            let ghost old_out = out@;
            out.push(a[i].clone());
            proof {
                assert(out@ =~= old_out.push(a@[i as int]));
                assert forall|p: int, q: int| 0 <= p < q < out@.len() implies (#[trigger] out@[p])@
                    != (#[trigger] out@[q])@ by {
                    if q < old_out.len() {
                    } else {
                        assert(seq_contains_view(old_out, out@[p]@));
                    }
                }
            }
        }
        i += 1;
    }
    assert(a@.subrange(0, n as int) =~= a@);
    proof {
        assert(path_view_set(out@) =~= path_view_set(a@).difference(path_view_set(b@)));
    }
    out
}

/// The common paths whose recorded hashes differ, each once.
pub(crate) fn modified_files(
    init_paths: &Vec<String>,
    fin_paths: &Vec<String>,
    init_fps: &Vec<Fingerprint>,
    fin_fps: &Vec<Fingerprint>,
) -> (r: Vec<String>)
    requires
        unique_path_views(init_paths@),
    ensures
        unique_path_views(r@),
        path_view_set(r@) == spec_modified(init_paths@, fin_paths@, init_fps@, fin_fps@),
{
    let n = init_paths.len();
    let mut out: Vec<String> = Vec::new();
    assert(init_paths@.subrange(0, 0) =~= Seq::<String>::empty());
    let mut i: usize = 0;
    while i < n
        invariant
            0 <= i <= n,
            n == init_paths@.len(),
            unique_path_views(init_paths@),
            unique_path_views(out@),
            forall|k: Seq<char>|
                #[trigger] seq_contains_view(out@, k) <==> (seq_contains_view(
                    init_paths@.subrange(0, i as int),
                    k,
                ) && spec_modified_at(fin_paths@, init_fps@, fin_fps@, k)),
        decreases n - i,
    {
        proof {
            assert(init_paths@.subrange(0, i + 1) =~= init_paths@.subrange(0, i as int).push(
                init_paths@[i as int],
            ));
            lemma_contains_view_push(init_paths@.subrange(0, i as int), init_paths@[i as int]);
        }
        let p = &init_paths[i];
        let is_modified: bool = if contains_path(fin_paths, p) {
            match (lookup_hash(init_fps, p), lookup_hash(fin_fps, p)) {
                (Some(x), Some(y)) => x != y,
                _ => false,
            }
        } else {
            false
        };
        assert(is_modified == spec_modified_at(fin_paths@, init_fps@, fin_fps@, p@));
        if is_modified {
            proof {
                if seq_contains_view(out@, init_paths@[i as int]@) {
                    let j = choose|j: int|
                        0 <= j < i && (#[trigger] init_paths@.subrange(0, i as int)[j])@
                            == init_paths@[i as int]@;
                    assert(init_paths@[j]@ == init_paths@[i as int]@);
                    assert(false);
                }
                lemma_contains_view_push(out@, init_paths@[i as int]);
            }
            let ghost old_out = out@;
            out.push(p.clone());
            proof {
                assert(out@ =~= old_out.push(init_paths@[i as int]));
                assert forall|a: int, q: int| 0 <= a < q < out@.len() implies (#[trigger] out@[a])@
                    != (#[trigger] out@[q])@ by {
                    if q < old_out.len() {
                    } else {
                        assert(seq_contains_view(old_out, out@[a]@));
                    }
                }
            }
        }
        i += 1;
    }
    assert(init_paths@.subrange(0, n as int) =~= init_paths@);
    proof {
        assert(path_view_set(out@) =~= spec_modified(
            init_paths@,
            fin_paths@,
            init_fps@,
            fin_fps@,
        ));
    }
    out
}

/// What one session wrote: the signed line/character deltas and the pairwise
/// disjoint created / deleted / modified path lists.
pub struct DiffResult {
    pub created: Vec<String>,
    pub deleted: Vec<String>,
    pub modified: Vec<String>,
    pub lines_written: i32,
    pub chars_written: i64,
}

/// Diffs two snapshots: set differences for created and deleted, hash
/// comparison on the common paths for modified, and signed count deltas.
pub fn diff(initial: &Snapshot, fin: &Snapshot) -> (d: DiffResult)
    requires
        initial.wf(),
        fin.wf(),
    ensures
        unique_path_views(d.created@),
        unique_path_views(d.deleted@),
        unique_path_views(d.modified@),
        path_view_set(d.created@) == spec_created(initial.paths@, fin.paths@),
        path_view_set(d.deleted@) == spec_deleted(initial.paths@, fin.paths@),
        path_view_set(d.modified@) == spec_modified(
            initial.paths@,
            fin.paths@,
            initial.hashes@,
            fin.hashes@,
        ),
        d.lines_written == fin.line_count - initial.line_count,
        d.chars_written == fin.char_count - initial.char_count,
{
    DiffResult {
        created: paths_minus(&fin.paths, &initial.paths),
        deleted: paths_minus(&initial.paths, &fin.paths),
        modified: modified_files(&initial.paths, &fin.paths, &initial.hashes, &fin.hashes),
        lines_written: fin.line_count - initial.line_count,
        chars_written: fin.char_count - initial.char_count,
    }
}

/// Snapshot partition: created, deleted and common are pairwise disjoint and
/// together cover exactly the union of the two snapshots' path sets.
pub proof fn lemma_snapshot_partition(init_paths: Seq<String>, fin_paths: Seq<String>)
    ensures
        spec_created(init_paths, fin_paths).union(spec_deleted(init_paths, fin_paths)).union(
            spec_common(init_paths, fin_paths),
        ) == path_view_set(init_paths).union(path_view_set(fin_paths)),
        spec_created(init_paths, fin_paths).disjoint(spec_deleted(init_paths, fin_paths)),
        spec_created(init_paths, fin_paths).disjoint(spec_common(init_paths, fin_paths)),
        spec_deleted(init_paths, fin_paths).disjoint(spec_common(init_paths, fin_paths)),
{
    assert(spec_created(init_paths, fin_paths).union(spec_deleted(init_paths, fin_paths)).union(
        spec_common(init_paths, fin_paths),
    ) =~= path_view_set(init_paths).union(path_view_set(fin_paths)));
}

/// Diff bounds: nothing created was already present, everything deleted was
/// present, and everything modified is present in both snapshots.
pub proof fn lemma_diff_bounds(
    init_paths: Seq<String>,
    fin_paths: Seq<String>,
    init_fps: Seq<Fingerprint>,
    fin_fps: Seq<Fingerprint>,
)
    ensures
        spec_created(init_paths, fin_paths).disjoint(path_view_set(init_paths)),
        spec_deleted(init_paths, fin_paths).subset_of(path_view_set(init_paths)),
        spec_modified(init_paths, fin_paths, init_fps, fin_fps).subset_of(
            spec_common(init_paths, fin_paths),
        ),
{
}

/// Diff symmetry: two snapshots with identical path sets, identical recorded
/// hashes and identical counts diff to empty created / deleted / modified
/// sets and zero lines and characters written.
pub proof fn lemma_diff_identity(initial: Snapshot, fin: Snapshot)
    requires
        initial.path_set() == fin.path_set(),
        forall|k: Seq<char>| #[trigger] initial.lookup(k) == fin.lookup(k),
        initial.line_count == fin.line_count,
        initial.char_count == fin.char_count,
    ensures
        spec_created(initial.paths@, fin.paths@) == Set::<Seq<char>>::empty(),
        spec_deleted(initial.paths@, fin.paths@) == Set::<Seq<char>>::empty(),
        spec_modified(initial.paths@, fin.paths@, initial.hashes@, fin.hashes@) == Set::<
            Seq<char>,
        >::empty(),
        fin.line_count - initial.line_count == 0,
        fin.char_count - initial.char_count == 0,
{
    assert(spec_created(initial.paths@, fin.paths@) =~= Set::<Seq<char>>::empty());
    assert(spec_deleted(initial.paths@, fin.paths@) =~= Set::<Seq<char>>::empty());
    assert forall|k: Seq<char>|
        !(#[trigger] spec_modified(
            initial.paths@,
            fin.paths@,
            initial.hashes@,
            fin.hashes@,
        ).contains(k)) by {
        assert(initial.lookup(k) == fin.lookup(k));
    }
    assert(spec_modified(initial.paths@, fin.paths@, initial.hashes@, fin.hashes@) =~= Set::<
        Seq<char>,
    >::empty());
}

} // verus!
