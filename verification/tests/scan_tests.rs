use ego::fingerprint::{fingerprint_content, lookup_hash};
use ego::scan::{compute_file_hashes, count_all_content, count_lines, entry_paths_unique, scan_files, ScanEntry};
use ego::snapshot::{contains_path, Snapshot};

fn entry(path: &str, name: &str, content: Option<&str>) -> ScanEntry {
    ScanEntry {
        path: path.to_string(),
        name: name.to_string(),
        content: content.map(|c| c.to_string()),
    }
}

#[test]
fn line_counting() {
    assert_eq!(count_lines(""), 0);
    assert_eq!(count_lines("a"), 1);
    assert_eq!(count_lines("a\n"), 1);
    assert_eq!(count_lines("a\nb"), 2);
    assert_eq!(count_lines("a\nb\n"), 2);
    assert_eq!(count_lines("a\n\nb"), 3);
    assert_eq!(count_lines("\n"), 1);
    assert_eq!(count_lines("one\r\ntwo\r\n"), 2);
}

#[test]
fn character_counts_are_unicode_scalars() {
    let entries = vec![entry("proj/a.md", "a.md", Some("héllo"))];
    let (lines, chars) = count_all_content(&entries);
    assert_eq!(lines, 1);
    assert_eq!(chars, 5);
}

#[test]
fn counting_skips_unreadable_and_out_of_scope() {
    let entries = vec![
        entry("proj/a.py", "a.py", Some("one\ntwo\n")),
        entry("proj/b.bin", "b.bin", Some("garbage\n")),
        entry("proj/c.py", "c.py", None),
        entry("proj/.hid.py", ".hid.py", Some("x\n")),
    ];
    let (lines, chars) = count_all_content(&entries);
    assert_eq!(lines, 2);
    assert_eq!(chars, 8);
}

#[test]
fn scan_lists_in_scope_paths_even_unreadable_ones() {
    let entries = vec![
        entry("proj/a.py", "a.py", Some("one\n")),
        entry("proj/b.bin", "b.bin", Some("junk")),
        entry("proj/c.py", "c.py", None),
    ];
    let paths = scan_files(&entries);
    assert_eq!(paths, vec!["proj/a.py".to_string(), "proj/c.py".to_string()]);
}

#[test]
fn fingerprints_deterministic_and_content_sensitive() {
    let a = fingerprint_content("fn main() {}\n");
    let b = fingerprint_content("fn main() {}\n");
    let c = fingerprint_content("fn main() { }\n");
    assert_eq!(a, b);
    assert_ne!(a, c);
    assert_ne!(fingerprint_content(""), fingerprint_content("\n"));
}

#[test]
fn fingerprint_exact_values() {
    // 64-bit FNV-1a reference values.
    assert_eq!(fingerprint_content(""), 0xcbf29ce484222325);
    assert_eq!(fingerprint_content("a"), 0xaf63dc4c8601ec8c);
    assert_eq!(fingerprint_content("foobar"), 0x85944171f73967e8);
}

#[test]
fn hash_table_skips_unreadable_files() {
    let entries = vec![
        entry("proj/a.py", "a.py", Some("one\n")),
        entry("proj/c.py", "c.py", None),
        entry("proj/b.bin", "b.bin", Some("junk")),
    ];
    let fps = compute_file_hashes(&entries);
    assert_eq!(fps.len(), 1);
    assert_eq!(fps[0].path, "proj/a.py");
    assert_eq!(fps[0].hash, fingerprint_content("one\n"));
    assert_eq!(
        lookup_hash(&fps, &"proj/a.py".to_string()),
        Some(fingerprint_content("one\n"))
    );
    assert_eq!(lookup_hash(&fps, &"proj/c.py".to_string()), None);
}

#[test]
fn uniqueness_checker() {
    let distinct = vec![
        entry("proj/a.py", "a.py", None),
        entry("proj/b.py", "b.py", None),
    ];
    assert!(entry_paths_unique(&distinct));
    let duplicated = vec![
        entry("proj/a.py", "a.py", None),
        entry("proj/a.py", "a.py", None),
    ];
    assert!(!entry_paths_unique(&duplicated));
}

#[test]
fn snapshot_from_entries() {
    let entries = vec![
        entry("proj/a.py", "a.py", Some("one\ntwo\n")),
        entry("proj/b.md", "b.md", Some("title")),
        entry("proj/skip.bin", "skip.bin", Some("xxxx")),
    ];
    assert!(entry_paths_unique(&entries));
    let snap = Snapshot::from_entries(&entries);
    assert_eq!(snap.line_count, 3);
    assert_eq!(snap.char_count, 13);
    assert_eq!(snap.paths.len(), 2);
    assert!(contains_path(&snap.paths, &"proj/a.py".to_string()));
    assert!(contains_path(&snap.paths, &"proj/b.md".to_string()));
    assert!(!contains_path(&snap.paths, &"proj/skip.bin".to_string()));
    assert_eq!(snap.hashes.len(), 2);
}
