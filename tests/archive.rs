use game_master::archive::{
    contained_entry_path, plan_entries, plan_entry, plan_extract, read_archive, zip_dir,
    ExtractStep, WalkedEntry,
};
use game_master::error::ErrorKind;

fn file(rel: &str, data: &str) -> WalkedEntry {
    WalkedEntry { relative: Some(rel.to_string()), is_file: true, data: data.as_bytes().to_vec() }
}

fn dir(rel: &str) -> WalkedEntry {
    WalkedEntry { relative: Some(rel.to_string()), is_file: false, data: Vec::new() }
}

#[test]
fn contained_paths_are_normalized() {
    assert_eq!(contained_entry_path("a/b.txt"), Some("a/b.txt".to_string()));
    assert_eq!(contained_entry_path("a/./b//c"), Some("a/b/c".to_string()));
    assert_eq!(contained_entry_path("a/../b"), Some("b".to_string()));
    assert_eq!(contained_entry_path("MyGame/"), Some("MyGame".to_string()));
    assert_eq!(contained_entry_path("MyGame\\Region\\r.7rg"), Some("MyGame/Region/r.7rg".to_string()));
    assert_eq!(contained_entry_path(""), Some("".to_string()));
}

#[test]
fn escaping_paths_are_refused() {
    assert_eq!(contained_entry_path("../../etc/evil"), None);
    assert_eq!(contained_entry_path("a/../../b"), None);
    assert_eq!(contained_entry_path("/etc/passwd"), None);
    assert_eq!(contained_entry_path("\\windows\\x"), None);
    assert_eq!(contained_entry_path(".."), None);
}

#[test]
fn traversal_entry_fails_extraction() {
    let e = plan_entry("../../etc/evil", b"bad".to_vec()).unwrap_err();
    assert_eq!(e.kind(), ErrorKind::ExtractFailed);
    let entries = vec![
        ("ok.txt".to_string(), b"fine".to_vec()),
        ("../../etc/evil".to_string(), b"bad".to_vec()),
    ];
    assert_eq!(plan_entries(entries).unwrap_err().kind(), ErrorKind::ExtractFailed);
}

#[test]
fn entries_become_steps() {
    match plan_entry("sub/", Vec::new()).unwrap() {
        ExtractStep::CreateDir { path } => assert_eq!(path, "sub"),
        other => panic!("unexpected {:?}", other),
    }
    match plan_entry("sub/b.txt", b"y".to_vec()).unwrap() {
        ExtractStep::WriteFile { path, data } => {
            assert_eq!(path, "sub/b.txt");
            assert_eq!(data, b"y".to_vec());
        }
        other => panic!("unexpected {:?}", other),
    }
    assert_eq!(plan_entry("./", Vec::new()).is_ok(), true);
    assert_eq!(plan_entry("a/..", b"x".to_vec()).unwrap_err().kind(), ErrorKind::ExtractFailed);
}

#[test]
fn archive_round_trip() {
    let walked = vec![
        dir(""),
        file("a.txt", "x"),
        dir("empty"),
        dir("sub"),
        file("sub/b.txt", "y"),
    ];
    let bytes = zip_dir(walked).unwrap();
    let entries = read_archive(bytes.clone()).unwrap();
    let names: Vec<&str> = entries.iter().map(|(n, _)| n.as_str()).collect();
    assert_eq!(names, vec!["a.txt", "empty/", "sub/", "sub/b.txt"]);
    let steps = plan_extract(bytes).unwrap();
    assert_eq!(steps.len(), 4);
    match &steps[0] {
        ExtractStep::WriteFile { path, data } => {
            assert_eq!(path, "a.txt");
            assert_eq!(data, &b"x".to_vec());
        }
        other => panic!("unexpected {:?}", other),
    }
    match &steps[1] {
        ExtractStep::CreateDir { path } => assert_eq!(path, "empty"),
        other => panic!("unexpected {:?}", other),
    }
    match &steps[2] {
        ExtractStep::CreateDir { path } => assert_eq!(path, "sub"),
        other => panic!("unexpected {:?}", other),
    }
    match &steps[3] {
        ExtractStep::WriteFile { path, data } => {
            assert_eq!(path, "sub/b.txt");
            assert_eq!(data, &b"y".to_vec());
        }
        other => panic!("unexpected {:?}", other),
    }
}

#[test]
fn unnamed_path_aborts_archive() {
    let walked = vec![
        file("a.txt", "x"),
        WalkedEntry { relative: None, is_file: true, data: Vec::new() },
    ];
    assert_eq!(zip_dir(walked).unwrap_err().kind(), ErrorKind::ArchiveFailed);
}

#[test]
fn empty_walk_gives_empty_archive() {
    let bytes = zip_dir(vec![dir("")]).unwrap();
    assert!(read_archive(bytes).unwrap().is_empty());
}

#[test]
fn garbage_is_not_an_archive() {
    let e = plan_extract(b"definitely not a zip file".to_vec()).unwrap_err();
    assert_eq!(e.kind(), ErrorKind::ExtractFailed);
}

#[test]
fn repeated_name_aborts_archive() {
    let walked = vec![file("a.txt", "x"), file("a.txt", "y")];
    assert_eq!(zip_dir(walked).unwrap_err().kind(), ErrorKind::ArchiveFailed);
}

#[test]
fn empty_file_is_archived() {
    let bytes = zip_dir(vec![file("empty.txt", "")]).unwrap();
    let entries = read_archive(bytes).unwrap();
    assert_eq!(entries, vec![("empty.txt".to_string(), Vec::new())]);
}
