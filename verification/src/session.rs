//! Session state: the aggregate record of one measuring session. Created at
//! start time from an initial snapshot, it accumulates active seconds from
//! activity pulses under an idle cutoff, and at end time takes the diff of the
//! stored snapshot data against a fresh final snapshot.
//!
//! Persistence is an outside concern: `save` produces the record of persisted
//! fields for the storage layer to write, and `load` rebuilds a session from a
//! record the storage layer read, recomputing the transient fields (path set,
//! fingerprint table, last-activity time) from a fresh walk — they are never
//! persisted.

use vstd::prelude::*;
use crate::fingerprint::Fingerprint;
use crate::snapshot::{Snapshot, path_view_set};
use crate::scan::unique_path_views;
use crate::diff::{spec_created, spec_deleted, spec_modified, paths_minus, modified_files};

verus! {

/// A gap of at least this many seconds between consecutive activity pulses is
/// attributed to idle time, not active time.
pub const IDLE_CUTOFF_SECONDS: i64 = 300;

/// One measuring session. Times are in whole seconds on the caller's clock.
/// The last three fields are transient: they live only in the process holding
/// the session and are recomputed from a fresh walk on every load.
#[derive(Clone)]
pub struct Session {
    pub start_time: i64,
    pub project_directory: String,
    pub initial_line_count: i32,
    pub initial_char_count: i64,
    pub final_line_count: Option<i32>,
    pub final_char_count: Option<i64>,
    pub lines_written: Option<i32>,
    pub chars_written: Option<i64>,
    pub files_created: Option<Vec<String>>,
    pub files_modified: Option<Vec<String>>,
    pub files_deleted: Option<Vec<String>>,
    pub active_time_seconds: i64,
    pub initial_files: Option<Vec<String>>,
    pub last_activity: Option<i64>,
    pub initial_file_hashes: Option<Vec<Fingerprint>>,
}

/// The fields of a session that the storage layer persists, in the order and
/// meaning of the on-disk record. Path sets, fingerprint tables and the
/// last-activity time are deliberately absent.
pub struct SessionRecord {
    pub start_time: i64,
    pub project_directory: String,
    pub initial_line_count: i32,
    pub initial_char_count: i64,
    pub final_line_count: Option<i32>,
    pub final_char_count: Option<i64>,
    pub lines_written: Option<i32>,
    pub chars_written: Option<i64>,
    pub files_created: Option<Vec<String>>,
    pub files_modified: Option<Vec<String>>,
    pub files_deleted: Option<Vec<String>>,
    pub active_time_seconds: i64,
}

impl SessionRecord {
    /// A record read back from storage is sound when its counts are in the
    /// ranges the session keeps them in.
    pub open spec fn wf(self) -> bool {
        &&& 0 <= self.initial_line_count
        &&& 0 <= self.initial_char_count
        &&& 0 <= self.active_time_seconds
    }
}

/// `r` carries exactly the persisted fields of `s`.
pub open spec fn records_match(s: Session, r: SessionRecord) -> bool {
    &&& r.start_time == s.start_time
    &&& r.project_directory@ == s.project_directory@
    &&& r.initial_line_count == s.initial_line_count
    &&& r.initial_char_count == s.initial_char_count
    &&& r.final_line_count == s.final_line_count
    &&& r.final_char_count == s.final_char_count
    &&& r.lines_written == s.lines_written
    &&& r.chars_written == s.chars_written
    &&& r.files_created.deep_view() == s.files_created.deep_view()
    &&& r.files_modified.deep_view() == s.files_modified.deep_view()
    &&& r.files_deleted.deep_view() == s.files_deleted.deep_view()
    &&& r.active_time_seconds == s.active_time_seconds
}

/// `s` is the session that loading `r` yields when the fresh walk gave
/// `current` and the clock read `now`: the persisted fields come from the
/// record, the transient fields from the walk and the clock.
pub open spec fn loaded_from(s: Session, r: SessionRecord, current: Snapshot, now: i64) -> bool {
    &&& s.start_time == r.start_time
    &&& s.project_directory == r.project_directory
    &&& s.initial_line_count == r.initial_line_count
    &&& s.initial_char_count == r.initial_char_count
    &&& s.final_line_count == r.final_line_count
    &&& s.final_char_count == r.final_char_count
    &&& s.lines_written == r.lines_written
    &&& s.chars_written == r.chars_written
    &&& s.files_created == r.files_created
    &&& s.files_modified == r.files_modified
    &&& s.files_deleted == r.files_deleted
    &&& s.active_time_seconds == r.active_time_seconds
    &&& s.initial_files == Some(current.paths)
    &&& s.initial_file_hashes == Some(current.hashes)
    &&& s.last_activity == Some(now)
}

/// Clones a path list, preserving every path.
fn clone_paths(v: &Vec<String>) -> (r: Vec<String>)
    ensures
        r@ == v@,
{
    let n = v.len();
    let mut out: Vec<String> = Vec::new();
    let mut i: usize = 0;
    while i < n
        invariant
            0 <= i <= n,
            n == v@.len(),
            out@ == v@.subrange(0, i as int),
        decreases n - i,
    {
        out.push(v[i].clone());
        proof {
            assert(out@ =~= v@.subrange(0, i + 1));
        }
        i += 1;
    }
    assert(v@.subrange(0, n as int) =~= v@);
    out
}

/// Clones an optional path list, preserving presence and every path.
fn clone_opt_paths(v: &Option<Vec<String>>) -> (r: Option<Vec<String>>)
    ensures
        r.deep_view() == v.deep_view(),
{
    match v {
        None => None,
        Some(paths) => {
            let c = clone_paths(paths);
            proof {
                assert(c.deep_view() =~= paths.deep_view());
            }
            Some(c)
        },
    }
}

impl Session {
    /// Well-formed: counts are non-negative and the stored initial path set,
    /// when present, has pairwise distinct paths.
    pub open spec fn wf(self) -> bool {
        &&& 0 <= self.initial_line_count
        &&& 0 <= self.initial_char_count
        &&& 0 <= self.active_time_seconds
        &&& match self.initial_files {
            Some(v) => unique_path_views(v@),
            None => true,
        }
    }

    /// Opens a session: the initial snapshot becomes the session's baseline,
    /// the clock reading `now` becomes both the start time and the first
    /// last-activity time, and no final data exists yet.
    pub fn new(project_directory: String, now: i64, initial: Snapshot) -> (s: Session)
        requires
            initial.wf(),
        ensures
            s.wf(),
            s.start_time == now,
            s.project_directory == project_directory,
            s.initial_line_count == initial.line_count,
            s.initial_char_count == initial.char_count,
            s.final_line_count is None,
            s.final_char_count is None,
            s.lines_written is None,
            s.chars_written is None,
            s.files_created is None,
            s.files_modified is None,
            s.files_deleted is None,
            s.active_time_seconds == 0,
            s.initial_files == Some(initial.paths),
            s.initial_file_hashes == Some(initial.hashes),
            s.last_activity == Some(now),
    {
        Session {
            start_time: now,
            project_directory,
            initial_line_count: initial.line_count,
            initial_char_count: initial.char_count,
            final_line_count: None,
            final_char_count: None,
            lines_written: None,
            chars_written: None,
            files_created: None,
            files_modified: None,
            files_deleted: None,
            active_time_seconds: 0,
            initial_files: Some(initial.paths),
            last_activity: Some(now),
            initial_file_hashes: Some(initial.hashes),
        }
    }

    /// The record of persisted fields, for the storage layer to write. The
    /// transient fields do not appear in it.
    pub fn save(&self) -> (r: SessionRecord)
        ensures
            records_match(*self, r),
    {
        SessionRecord {
            start_time: self.start_time,
            project_directory: self.project_directory.clone(),
            initial_line_count: self.initial_line_count,
            initial_char_count: self.initial_char_count,
            final_line_count: self.final_line_count,
            final_char_count: self.final_char_count,
            lines_written: self.lines_written,
            chars_written: self.chars_written,
            files_created: clone_opt_paths(&self.files_created),
            files_modified: clone_opt_paths(&self.files_modified),
            files_deleted: clone_opt_paths(&self.files_deleted),
            active_time_seconds: self.active_time_seconds,
        }
    }

    /// Rebuilds a session from a record the storage layer read, if it read
    /// one: the persisted fields come from the record unchanged, while the
    /// path set, the fingerprint table and the last-activity time are taken
    /// fresh from `current` and `now`, never from storage.
    pub fn load(record: Option<SessionRecord>, current: Snapshot, now: i64) -> (r: Option<
        Session,
    >)
        requires
            current.wf(),
            match record {
                Some(rec) => rec.wf(),
                None => true,
            },
        ensures
            match (record, r) {
                (Some(rec), Some(s)) => loaded_from(s, rec, current, now) && s.wf(),
                (None, None) => true,
                _ => false,
            },
    {
        match record {
            None => None,
            Some(rec) => Some(
                Session {
                    start_time: rec.start_time,
                    project_directory: rec.project_directory,
                    initial_line_count: rec.initial_line_count,
                    initial_char_count: rec.initial_char_count,
                    final_line_count: rec.final_line_count,
                    final_char_count: rec.final_char_count,
                    lines_written: rec.lines_written,
                    chars_written: rec.chars_written,
                    files_created: rec.files_created,
                    files_modified: rec.files_modified,
                    files_deleted: rec.files_deleted,
                    active_time_seconds: rec.active_time_seconds,
                    initial_files: Some(current.paths),
                    last_activity: Some(now),
                    initial_file_hashes: Some(current.hashes),
                },
            ),
        }
    }

    /// Records one activity pulse at clock reading `now`. The gap since the
    /// previous pulse counts as active time iff it is strictly below the idle
    /// cutoff; a gap exactly at the cutoff, or beyond it, adds nothing. The
    /// last-activity time moves to `now` either way.
    pub fn record_activity(&mut self, now: i64)
        requires
            old(self).wf(),
            old(self).active_time_seconds + IDLE_CUTOFF_SECONDS <= i64::MAX,
            match old(self).last_activity {
                Some(last) => last <= now && now - last <= i64::MAX,
                None => true,
            },
        ensures
            final(self).wf(),
            final(self).last_activity == Some(now),
            match old(self).last_activity {
                Some(last) => final(self).active_time_seconds == if now - last < IDLE_CUTOFF_SECONDS {
                    old(self).active_time_seconds + (now - last)
                } else {
                    old(self).active_time_seconds as int
                },
                None => final(self).active_time_seconds == old(self).active_time_seconds,
            },
            final(self).start_time == old(self).start_time,
            final(self).project_directory == old(self).project_directory,
            final(self).initial_line_count == old(self).initial_line_count,
            final(self).initial_char_count == old(self).initial_char_count,
            final(self).final_line_count == old(self).final_line_count,
            final(self).final_char_count == old(self).final_char_count,
            final(self).lines_written == old(self).lines_written,
            final(self).chars_written == old(self).chars_written,
            final(self).files_created == old(self).files_created,
            final(self).files_modified == old(self).files_modified,
            final(self).files_deleted == old(self).files_deleted,
            final(self).initial_files == old(self).initial_files,
            final(self).initial_file_hashes == old(self).initial_file_hashes,
    {
        match self.last_activity {
            Some(last) => {
                let elapsed = now - last;
                if elapsed < IDLE_CUTOFF_SECONDS {
                    self.active_time_seconds = self.active_time_seconds + elapsed;
                }
            },
            None => {},
        }
        self.last_activity = Some(now);
    }

    /// Ends the session against a fresh final snapshot: stores the final
    /// counts, the signed line/character deltas against the initial counts,
    /// and — when the transient snapshot data is present — the created /
    /// deleted / modified path sets of the diff. Removing the persisted
    /// record afterwards is the storage layer's part of the transition.
    pub fn end(&mut self, current: &Snapshot)
        requires
            old(self).wf(),
            current.wf(),
        ensures
            final(self).wf(),
            final(self).final_line_count == Some(current.line_count),
            final(self).final_char_count == Some(current.char_count),
            match final(self).lines_written {
                Some(lw) => lw == current.line_count - old(self).initial_line_count,
                None => false,
            },
            match final(self).chars_written {
                Some(cw) => cw == current.char_count - old(self).initial_char_count,
                None => false,
            },
            match (old(self).initial_files, old(self).initial_file_hashes) {
                (Some(init_paths), Some(init_fps)) => {
                    &&& match final(self).files_created {
                        Some(c) => unique_path_views(c@) && path_view_set(c@) == spec_created(
                            init_paths@,
                            current.paths@,
                        ),
                        None => false,
                    }
                    &&& match final(self).files_deleted {
                        Some(d) => unique_path_views(d@) && path_view_set(d@) == spec_deleted(
                            init_paths@,
                            current.paths@,
                        ),
                        None => false,
                    }
                    &&& match final(self).files_modified {
                        Some(m) => unique_path_views(m@) && path_view_set(m@) == spec_modified(
                            init_paths@,
                            current.paths@,
                            init_fps@,
                            current.hashes@,
                        ),
                        None => false,
                    }
                },
                _ => {
                    &&& final(self).files_created == old(self).files_created
                    &&& final(self).files_deleted == old(self).files_deleted
                    &&& final(self).files_modified == old(self).files_modified
                },
            },
            final(self).start_time == old(self).start_time,
            final(self).project_directory == old(self).project_directory,
            final(self).initial_line_count == old(self).initial_line_count,
            final(self).initial_char_count == old(self).initial_char_count,
            final(self).active_time_seconds == old(self).active_time_seconds,
            final(self).last_activity == old(self).last_activity,
            final(self).initial_files == old(self).initial_files,
            final(self).initial_file_hashes == old(self).initial_file_hashes,
    {
        let final_lines = current.line_count;
        let final_chars = current.char_count;
        self.final_line_count = Some(final_lines);
        self.final_char_count = Some(final_chars);
        self.lines_written = Some(final_lines - self.initial_line_count);
        self.chars_written = Some(final_chars - self.initial_char_count);

        let computed: Option<(Vec<String>, Vec<String>, Vec<String>)> = match (
            &self.initial_files,
            &self.initial_file_hashes,
        ) {
            (Some(init_paths), Some(init_fps)) => {
                let created = paths_minus(&current.paths, init_paths);
                let deleted = paths_minus(init_paths, &current.paths);
                let modified = modified_files(
                    init_paths,
                    &current.paths,
                    init_fps,
                    &current.hashes,
                );
                Some((created, deleted, modified))
            },
            _ => None,
        };
        match computed {
            Some((created, deleted, modified)) => {
                self.files_created = Some(created);
                self.files_deleted = Some(deleted);
                self.files_modified = Some(modified);
            },
            None => {},
        }
    }
}

/// Round trip: loading the record saved for a session yields a session whose
/// persisted fields are identical to the original's, while the transient
/// fields are freshly recomputed from the walk and the clock, never restored
/// from stale data.
pub proof fn lemma_record_round_trip(
    s: Session,
    r: SessionRecord,
    s2: Session,
    current: Snapshot,
    now: i64,
)
    requires
        records_match(s, r),
        loaded_from(s2, r, current, now),
    ensures
        s2.start_time == s.start_time,
        s2.project_directory@ == s.project_directory@,
        s2.initial_line_count == s.initial_line_count,
        s2.initial_char_count == s.initial_char_count,
        s2.final_line_count == s.final_line_count,
        s2.final_char_count == s.final_char_count,
        s2.lines_written == s.lines_written,
        s2.chars_written == s.chars_written,
        s2.files_created.deep_view() == s.files_created.deep_view(),
        s2.files_modified.deep_view() == s.files_modified.deep_view(),
        s2.files_deleted.deep_view() == s.files_deleted.deep_view(),
        s2.active_time_seconds == s.active_time_seconds,
        s2.initial_files == Some(current.paths),
        s2.initial_file_hashes == Some(current.hashes),
        s2.last_activity == Some(now),
{
}

} // verus!
