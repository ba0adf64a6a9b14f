use sftp_browser::entries::{
    is_directory_label, map_dir_entries, map_entry, str_contains, FileSystemEntry, RawDirEntry,
};
use sftp_browser::session::{ConnectOutcome, SFTPConnectionState};
use sftp_browser::registry::{ProjectsList, RemoteProject};

fn raw(name: &str, kind_label: &str, size: Option<u64>) -> RawDirEntry {
    RawDirEntry { name: name.to_string(), kind_label: kind_label.to_string(), size }
}

#[test]
fn tag_with_directory_marker_maps_to_directory_whatever_the_size() {
    for size in [None, Some(0), Some(5), Some(u64::MAX)] {
        match map_entry(&raw("sub", "Dir", size)) {
            FileSystemEntry::Directory(d) => {
                assert_eq!(d.name, "sub");
                assert_eq!(d.kind_label, "Dir");
            }
            FileSystemEntry::File(_) => panic!("a Dir tag must map to Directory"),
        }
    }
    // the marker counts anywhere in the tag text
    assert!(matches!(
        map_entry(&raw("x", "SubDir", Some(9))),
        FileSystemEntry::Directory(_)
    ));
}

#[test]
fn other_tags_map_to_file_with_reported_or_default_size() {
    match map_entry(&raw("a.txt", "File", Some(10))) {
        FileSystemEntry::File(f) => {
            assert_eq!(f.name, "a.txt");
            assert_eq!(f.kind_label, "File");
            assert_eq!(f.size, 10);
        }
        FileSystemEntry::Directory(_) => panic!("a File tag must map to File"),
    }
    match map_entry(&raw("link", "Symlink", None)) {
        FileSystemEntry::File(f) => assert_eq!(f.size, 0),
        FileSystemEntry::Directory(_) => panic!("a Symlink tag must map to File"),
    }
    match map_entry(&raw("dev", "Other", None)) {
        FileSystemEntry::File(f) => assert_eq!(f.kind_label, "Other"),
        FileSystemEntry::Directory(_) => panic!("an Other tag must map to File"),
    }
}

#[test]
fn oversized_report_is_reduced_to_32_bits() {
    match map_entry(&raw("big", "File", Some(0x1_0000_000A))) {
        FileSystemEntry::File(f) => assert_eq!(f.size, 10),
        FileSystemEntry::Directory(_) => panic!("expected File"),
    }
}

#[test]
fn mapping_keeps_the_server_supplied_order() {
    let forward = vec![raw("sub", "Dir", None), raw("a.txt", "File", Some(10))];
    let mapped = map_dir_entries(&forward);
    assert_eq!(mapped.len(), 2);
    assert!(matches!(&mapped[0], FileSystemEntry::Directory(d) if d.name == "sub"));
    assert!(matches!(&mapped[1], FileSystemEntry::File(f) if f.name == "a.txt"));

    let backward = vec![raw("a.txt", "File", Some(10)), raw("sub", "Dir", None)];
    let mapped = map_dir_entries(&backward);
    assert!(matches!(&mapped[0], FileSystemEntry::File(f) if f.name == "a.txt"));
    assert!(matches!(&mapped[1], FileSystemEntry::Directory(d) if d.name == "sub"));
}

#[test]
fn list_directory_fixture_matches_server_order() {
    let mut projects = ProjectsList::new();
    projects.remote_projects.set(
        "r1".to_string(),
        RemoteProject {
            host: "h".to_string(),
            port: 22,
            user: "u".to_string(),
            password: "p".to_string(),
        },
    );
    let mut state: SFTPConnectionState<u32> = SFTPConnectionState::new();
    let connected = state.connect_to_remote_project(
        &projects,
        &"r1".to_string(),
        Some(ConnectOutcome::Connected(1)),
    );
    assert!(connected.is_ok());

    let fixture = vec![raw("sub", "Dir", None), raw("a.txt", "File", Some(10))];
    match state.list_directory(Some(Ok(fixture))) {
        Ok(entries) => {
            assert_eq!(entries.len(), 2);
            match &entries[0] {
                FileSystemEntry::Directory(d) => assert_eq!(d.name, "sub"),
                FileSystemEntry::File(_) => panic!("first entry must be the directory"),
            }
            match &entries[1] {
                FileSystemEntry::File(f) => {
                    assert_eq!(f.name, "a.txt");
                    assert_eq!(f.size, 10);
                }
                FileSystemEntry::Directory(_) => panic!("second entry must be the file"),
            }
        }
        Err(_) => panic!("expected a listing"),
    }
}

#[test]
fn substring_search_agrees_with_contains() {
    let cases = [
        ("Dir", "Dir", true),
        ("File", "Dir", false),
        ("", "Dir", false),
        ("xDiry", "Dir", true),
        ("Di", "Dir", false),
        ("DDir", "Dir", true),
        ("DiDrir", "Dir", false),
        ("anything", "", true),
    ];
    for (text, pat, expected) in cases {
        assert_eq!(str_contains(text, pat), expected, "{text:?} contains {pat:?}");
        assert_eq!(text.contains(pat), expected);
    }
    assert!(is_directory_label("NamedDir"));
    assert!(!is_directory_label("Regular"));
}
