use ego::diff::diff;
use ego::scan::ScanEntry;
use ego::snapshot::{contains_path, Snapshot};

fn entry(path: &str, content: Option<&str>) -> ScanEntry {
    let name = path.rsplit('/').next().unwrap().to_string();
    ScanEntry {
        path: path.to_string(),
        name,
        content: content.map(|c| c.to_string()),
    }
}

fn snap(entries: &[(&str, Option<&str>)]) -> Snapshot {
    let v: Vec<ScanEntry> = entries.iter().map(|(p, c)| entry(p, *c)).collect();
    Snapshot::from_entries(&v)
}

#[test]
fn diff_classifies_created_deleted_modified() {
    let initial = snap(&[
        ("proj/a.py", Some("one\n")),
        ("proj/b.py", Some("two\n")),
        ("proj/c.py", Some("three\n")),
    ]);
    let fin = snap(&[
        ("proj/a.py", Some("one changed\n")),
        ("proj/c.py", Some("three\n")),
        ("proj/d.py", Some("four\n")),
    ]);
    let d = diff(&initial, &fin);
    assert_eq!(d.created, vec!["proj/d.py".to_string()]);
    assert_eq!(d.deleted, vec!["proj/b.py".to_string()]);
    assert_eq!(d.modified, vec!["proj/a.py".to_string()]);
}

#[test]
fn unreadable_common_file_not_modified() {
    // A common path with a hash missing on either side is assumed unchanged.
    let initial = snap(&[("proj/a.py", Some("one\n")), ("proj/b.py", None)]);
    let fin = snap(&[("proj/a.py", Some("one\n")), ("proj/b.py", Some("text\n"))]);
    let d = diff(&initial, &fin);
    assert!(d.created.is_empty());
    assert!(d.deleted.is_empty());
    assert!(d.modified.is_empty());
}

#[test]
fn identical_snapshots_diff_to_nothing() {
    let entries: &[(&str, Option<&str>)] = &[
        ("proj/a.py", Some("one\ntwo\n")),
        ("proj/b.md", Some("title")),
    ];
    let initial = snap(entries);
    let fin = snap(entries);
    let d = diff(&initial, &fin);
    assert!(d.created.is_empty());
    assert!(d.deleted.is_empty());
    assert!(d.modified.is_empty());
    assert_eq!(d.lines_written, 0);
    assert_eq!(d.chars_written, 0);
}

#[test]
fn partition_covers_union_without_overlap() {
    let initial = snap(&[
        ("proj/a.py", Some("one\n")),
        ("proj/b.py", Some("two\n")),
    ]);
    let fin = snap(&[
        ("proj/b.py", Some("two changed\n")),
        ("proj/c.py", Some("three\n")),
    ]);
    let d = diff(&initial, &fin);

    let mut union: Vec<String> = initial.paths.clone();
    for p in &fin.paths {
        if !contains_path(&union, p) {
            union.push(p.clone());
        }
    }
    // common = union minus created minus deleted
    let common: Vec<String> = union
        .iter()
        .filter(|p| contains_path(&initial.paths, p) && contains_path(&fin.paths, p))
        .cloned()
        .collect();

    // pairwise disjoint
    for p in &d.created {
        assert!(!contains_path(&d.deleted, p));
        assert!(!common.contains(p));
    }
    for p in &d.deleted {
        assert!(!common.contains(p));
    }
    // together they cover the union exactly
    let mut covered: Vec<String> = Vec::new();
    covered.extend(d.created.iter().cloned());
    covered.extend(d.deleted.iter().cloned());
    covered.extend(common.iter().cloned());
    assert_eq!(covered.len(), union.len());
    for p in &union {
        assert!(covered.contains(p));
    }
}

#[test]
fn signed_deltas_can_be_negative() {
    let initial = snap(&[("proj/a.py", Some("one\ntwo\nthree\n"))]);
    let fin = snap(&[("proj/a.py", Some("one\n"))]);
    let d = diff(&initial, &fin);
    assert_eq!(d.lines_written, -2);
    assert_eq!(d.chars_written, -10);
}
