use ego::scan::ScanEntry;
use ego::session::{Session, IDLE_CUTOFF_SECONDS};
use ego::snapshot::Snapshot;

fn entry(path: &str, content: Option<&str>) -> ScanEntry {
    let name = path.rsplit('/').next().unwrap().to_string();
    ScanEntry {
        path: path.to_string(),
        name,
        content: content.map(|c| c.to_string()),
    }
}

fn snap(entries: &[(&str, Option<&str>)]) -> Snapshot {
    let v: Vec<ScanEntry> = entries.iter().map(|(p, c)| entry(p, *c)).collect();
    Snapshot::from_entries(&v)
}

#[test]
fn start_then_modify_then_end() {
    // proj/ holds a.py with 2 lines and 20 characters.
    let initial = snap(&[("proj/a.py", Some("abcdefghi\nabcdefghi\n"))]);
    assert_eq!(initial.line_count, 2);
    assert_eq!(initial.char_count, 20);

    let mut session = Session::new("proj".to_string(), 1_000, initial);
    assert_eq!(session.initial_line_count, 2);
    assert_eq!(session.initial_char_count, 20);

    // a.py grows to 3 lines / 35 characters; b.py appears with 1 line / 5
    // characters; nothing is deleted.
    let fin = snap(&[
        ("proj/a.py", Some("abcdefghi\nabcdefghi\nabcdefghijklmno")),
        ("proj/b.py", Some("hell\n")),
    ]);
    assert_eq!(fin.line_count, 3 + 1);
    assert_eq!(fin.char_count, 35 + 5);

    session.end(&fin);
    assert_eq!(session.lines_written, Some(2));
    assert_eq!(session.chars_written, Some(20));
    assert_eq!(session.files_created, Some(vec!["proj/b.py".to_string()]));
    assert_eq!(session.files_modified, Some(vec!["proj/a.py".to_string()]));
    assert_eq!(session.files_deleted, Some(vec![]));
    assert_eq!(session.final_line_count, Some(4));
    assert_eq!(session.final_char_count, Some(40));
}

#[test]
fn ending_without_a_record_yields_no_session() {
    // `end` with no persisted record: loading yields nothing to end, which
    // the caller reports as "no active session", not as a fault.
    let current = snap(&[("proj/a.py", Some("one\n"))]);
    let loaded = Session::load(None, current, 50);
    assert!(loaded.is_none());
}

#[test]
fn pulses_beyond_the_cutoff_count_as_idle() {
    // Pulses at t=0 (creation), t=10 and t=400: the 390-second gap exceeds
    // the 300-second cutoff and is excluded, leaving 10 active seconds.
    let initial = snap(&[]);
    let mut session = Session::new("proj".to_string(), 0, initial);
    session.record_activity(10);
    assert_eq!(session.active_time_seconds, 10);
    session.record_activity(400);
    assert_eq!(session.active_time_seconds, 10);
}

#[test]
fn cutoff_boundary_is_exclusive() {
    assert_eq!(IDLE_CUTOFF_SECONDS, 300);

    // A gap of exactly the cutoff adds nothing.
    let mut at_cutoff = Session::new("proj".to_string(), 0, snap(&[]));
    at_cutoff.record_activity(300);
    assert_eq!(at_cutoff.active_time_seconds, 0);

    // A gap one second shorter adds its full length.
    let mut below_cutoff = Session::new("proj".to_string(), 0, snap(&[]));
    below_cutoff.record_activity(299);
    assert_eq!(below_cutoff.active_time_seconds, 299);
}

#[test]
fn saved_record_round_trips_and_recomputes_transients() {
    let initial = snap(&[("proj/a.py", Some("one\ntwo\n"))]);
    let mut session = Session::new("proj".to_string(), 7_000, initial);
    session.record_activity(7_040);
    let fin = snap(&[("proj/a.py", Some("one\ntwo\nthree\n"))]);
    session.end(&fin);

    let record = session.save();
    assert_eq!(record.start_time, 7_000);
    assert_eq!(record.project_directory, "proj");
    assert_eq!(record.initial_line_count, 2);
    assert_eq!(record.initial_char_count, 8);
    assert_eq!(record.final_line_count, Some(3));
    assert_eq!(record.final_char_count, Some(14));
    assert_eq!(record.lines_written, Some(1));
    assert_eq!(record.chars_written, Some(6));
    assert_eq!(record.files_created, Some(vec![]));
    assert_eq!(record.files_modified, Some(vec!["proj/a.py".to_string()]));
    assert_eq!(record.files_deleted, Some(vec![]));
    assert_eq!(record.active_time_seconds, 40);

    // Loading the record recomputes the transient fields from the fresh walk
    // and the clock; the persisted fields come back identical.
    let fresh = snap(&[("proj/a.py", Some("one\ntwo\nthree\n"))]);
    let fresh_paths = fresh.paths.clone();
    let fresh_hashes_len = fresh.hashes.len();
    let loaded = Session::load(Some(record), fresh, 9_999).unwrap();
    assert_eq!(loaded.start_time, session.start_time);
    assert_eq!(loaded.project_directory, session.project_directory);
    assert_eq!(loaded.initial_line_count, session.initial_line_count);
    assert_eq!(loaded.initial_char_count, session.initial_char_count);
    assert_eq!(loaded.final_line_count, session.final_line_count);
    assert_eq!(loaded.final_char_count, session.final_char_count);
    assert_eq!(loaded.lines_written, session.lines_written);
    assert_eq!(loaded.chars_written, session.chars_written);
    assert_eq!(loaded.files_created, session.files_created);
    assert_eq!(loaded.files_modified, session.files_modified);
    assert_eq!(loaded.files_deleted, session.files_deleted);
    assert_eq!(loaded.active_time_seconds, session.active_time_seconds);
    assert_eq!(loaded.initial_files, Some(fresh_paths));
    assert_eq!(loaded.initial_file_hashes.as_ref().map(|h| h.len()), Some(fresh_hashes_len));
    assert_eq!(loaded.last_activity, Some(9_999));
}

#[test]
fn new_session_starts_clean() {
    let initial = snap(&[("proj/a.py", Some("x"))]);
    let session = Session::new("proj".to_string(), 42, initial);
    assert_eq!(session.start_time, 42);
    assert_eq!(session.active_time_seconds, 0);
    assert_eq!(session.final_line_count, None);
    assert_eq!(session.final_char_count, None);
    assert_eq!(session.lines_written, None);
    assert_eq!(session.chars_written, None);
    assert_eq!(session.files_created, None);
    assert_eq!(session.files_modified, None);
    assert_eq!(session.files_deleted, None);
    assert_eq!(session.last_activity, Some(42));
    assert_eq!(session.initial_files, Some(vec!["proj/a.py".to_string()]));
}
