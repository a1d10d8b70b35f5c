use file_clipper::errors::{AppError, AppInfo, AppWarning, FailureKind, FileError, FileWarning, IoFailure};
use file_clipper::files::{
    check_validity, expand_paths, filter_invalid_entries, get_absolute_path, get_metadata,
    handle_transfer, patterns_to_expand, record_entries, resolve_path, FileStat, GlobOutcome,
    Probe, ProbeResult,
};
use file_clipper::models::{EntryType, Metadata, Operation, RecordEntry};
use file_clipper::records::{read_clipboard, write_clipboard, RecordStore};
use std::time::{SystemTime, UNIX_EPOCH};

fn now_secs() -> u64 {
    SystemTime::now().duration_since(UNIX_EPOCH).unwrap().as_secs()
}

fn new_id() -> u128 {
    uuid::Uuid::new_v4().as_u128()
}

fn create_mock_record_entry(
    path: Option<String>,
    operation: Option<Operation>,
    entry_type: Option<EntryType>,
    timestamp: Option<u64>,
    size: Option<u64>,
) -> RecordEntry {
    RecordEntry {
        id: new_id(),
        timestamp: timestamp.unwrap_or_else(now_secs),
        operation: operation.unwrap_or(Operation::Copy),
        entry_type: entry_type.unwrap_or(EntryType::File),
        path: path.unwrap_or_else(|| format!("/tmp/file_{}.txt", uuid::Uuid::new_v4())),
        size: size.or(Some(123)),
    }
}

fn file_probe(path: &str, len: u64, modified: u64) -> Probe {
    Probe {
        absolute_path: path.to_string(),
        stat: Ok(FileStat {
            is_symlink: false,
            is_dir: false,
            is_file: true,
            len,
            modified: Ok(modified),
        }),
        canonical_path: Ok(path.to_string()),
    }
}

fn missing_probe(path: &str) -> Probe {
    Probe {
        absolute_path: path.to_string(),
        stat: Err(IoFailure {
            kind: FailureKind::NotFound,
            detail: String::from("No such file or directory (os error 2)"),
        }),
        canonical_path: Err(IoFailure {
            kind: FailureKind::NotFound,
            detail: String::from("No such file or directory (os error 2)"),
        }),
    }
}

fn create_file_and_get_metadata(dir: &str, file_name: &str, content: &str) -> Metadata {
    let path = format!("{}/{}", dir, file_name);
    get_metadata(file_probe(&path, content.len() as u64, now_secs())).unwrap()
}

#[test]
fn test_handle_transfer_copy() {
    let mut store = RecordStore::new();
    let file_path = String::from("/home/user/source/a.txt");
    let probe = get_metadata(file_probe(&file_path, 1, now_secs()));

    let infos =
        handle_transfer(&mut store, vec![file_path.clone()], vec![probe], Operation::Copy, now_secs())
            .unwrap();

    assert_eq!(infos.len(), 1);
    assert_eq!(infos[0], AppInfo::Copy { path: file_path.clone() });

    let clipboard = read_clipboard(&store).unwrap();
    assert_eq!(clipboard.len(), 1);
    assert_eq!(clipboard[0].operation, Operation::Copy);
    assert_eq!(
        clipboard[0].path,
        get_absolute_path(&file_path, Ok(file_path.clone())).unwrap()
    );
    assert!(store.clipboard_written);
    assert!(!store.history_written);
}

#[test]
fn test_expand_paths() {
    let source_dir = "/home/user/source";
    let file_a_path = format!("{}/a.txt", source_dir);
    let file_b_path = format!("{}/b.txt", source_dir);
    let file_c_path = format!("{}/c.log", source_dir);

    let glob_path = format!("{}/*.txt", source_dir);
    let (expanded, warnings) = expand_paths(
        vec![glob_path.clone()],
        vec![GlobOutcome::Matched(vec![file_b_path.clone(), file_a_path.clone()])],
    )
    .unwrap();
    assert_eq!(expanded.len(), 2);
    assert!(expanded.contains(&file_a_path));
    assert!(expanded.contains(&file_b_path));
    assert_eq!(expanded, vec![file_a_path.clone(), file_b_path.clone()]);
    assert!(warnings.is_empty());

    let unmatched_glob_path = format!("{}/*.md", source_dir);
    let (expanded, warnings) = expand_paths(
        vec![unmatched_glob_path.clone()],
        vec![GlobOutcome::Matched(Vec::new())],
    )
    .unwrap();
    assert!(expanded.is_empty());
    assert!(!warnings.is_empty());
    assert_eq!(warnings.len(), 1);
    assert!(matches!(
        warnings[0],
        AppWarning::File(FileWarning::GlobUnmatched { .. })
    ));

    let (expanded, warnings) = expand_paths(vec![file_c_path.clone()], Vec::new()).unwrap();
    assert_eq!(expanded.len(), 1);
    assert_eq!(expanded[0], file_c_path);
    assert!(warnings.is_empty());
}

#[test]
fn test_check_validity_happy_path() {
    let metadata = create_file_and_get_metadata("/tmp/dir", "valid.txt", "hello");

    let entry = create_mock_record_entry(
        Some(metadata.absolute_path.clone()),
        Some(Operation::Copy),
        Some(metadata.entry_type),
        Some(metadata.modified),
        metadata.size,
    );

    let result = check_validity(&entry, &Ok(metadata)).expect("check_validity failed");
    assert!(result.is_none());
}

#[test]
fn test_check_validity_type_mismatch() {
    let metadata = create_file_and_get_metadata("/tmp/dir", "type_mismatch.txt", "hello");

    let entry = create_mock_record_entry(
        Some(metadata.absolute_path.clone()),
        Some(Operation::Copy),
        Some(EntryType::Directory), // Intentionally wrong type
        Some(metadata.modified),
        metadata.size,
    );

    let warning = check_validity(&entry, &Ok(metadata))
        .expect("check_validity failed")
        .expect("Expected a warning");

    assert_eq!(
        warning,
        FileWarning::TypeMismatch {
            path: String::from("/tmp/dir/type_mismatch.txt"),
            old_type: String::from("Directory"),
            new_type: String::from("File"),
        }
    );
}

#[test]
fn test_check_validity_size_mismatch() {
    let metadata = create_file_and_get_metadata("/tmp/dir", "size_mismatch.txt", "hello");

    let entry = create_mock_record_entry(
        Some(metadata.absolute_path.clone()),
        Some(Operation::Copy),
        Some(metadata.entry_type),
        Some(metadata.modified),
        Some(0), // Intentionally wrong size
    );

    let warning = check_validity(&entry, &Ok(metadata))
        .expect("check_validity failed")
        .expect("Expected a warning");

    assert_eq!(
        warning,
        FileWarning::SizeMismatch {
            path: String::from("/tmp/dir/size_mismatch.txt"),
            old_size: 0,
            new_size: 5,
        }
    );
}

#[test]
fn test_check_validity_modified_mismatch() {
    let path = "/tmp/dir/modified.txt";
    let first = get_metadata(file_probe(path, 5, 1_700_000_000)).unwrap();

    let entry = create_mock_record_entry(
        Some(first.absolute_path.clone()),
        Some(Operation::Copy),
        Some(first.entry_type),
        Some(first.modified),
        first.size,
    );

    // The file is written again one second later, with the same length.
    let second = get_metadata(file_probe(path, 5, 1_700_000_001));

    let warning = check_validity(&entry, &second)
        .expect("check_validity failed")
        .expect("Expected a warning");

    assert_eq!(warning, FileWarning::ModifiedMismatch { path: path.to_string() });
}

#[test]
fn test_check_validity_path_not_found() {
    let path = "/this/path/should/not/exist/ever.txt";
    let entry = create_mock_record_entry(
        Some(path.to_string()),
        Some(Operation::Copy),
        Some(EntryType::File),
        None,
        None,
    );

    let result = check_validity(&entry, &get_metadata(missing_probe(path)));
    assert!(result.is_err());
    assert_eq!(result.unwrap_err(), FileError::PathNotFound { path: path.to_string() });
}

#[test]
fn check_validity_reports_only_the_first_drift() {
    let found = Metadata {
        modified: 200,
        size: Some(9),
        entry_type: EntryType::Symlink,
        absolute_path: String::from("/data/x"),
    };
    let entry = RecordEntry {
        id: 1,
        timestamp: 100,
        size: Some(5),
        operation: Operation::Copy,
        entry_type: EntryType::File,
        path: String::from("/data/x"),
    };
    let warning = check_validity(&entry, &Ok(found)).unwrap().unwrap();
    assert!(matches!(warning, FileWarning::TypeMismatch { .. }));

    let found = Metadata {
        modified: 200,
        size: Some(9),
        entry_type: EntryType::File,
        absolute_path: String::from("/data/x"),
    };
    let warning = check_validity(&entry, &Ok(found)).unwrap().unwrap();
    assert!(matches!(warning, FileWarning::SizeMismatch { old_size: 5, new_size: 9, .. }));
}

#[test]
fn check_validity_ignores_an_absent_size_and_an_equal_time() {
    let found = Metadata {
        modified: 100,
        size: None,
        entry_type: EntryType::Directory,
        absolute_path: String::from("/data/dir"),
    };
    let entry = RecordEntry {
        id: 1,
        timestamp: 100,
        size: Some(5),
        operation: Operation::Copy,
        entry_type: EntryType::Directory,
        path: String::from("/data/dir"),
    };
    assert_eq!(check_validity(&entry, &Ok(found)), Ok(None));
}

#[test]
fn test_get_absolute_path_for_existing_file() {
    let file_path = "/tmp/dir/test_file.txt";
    let canonical = String::from("/private/tmp/dir/test_file.txt");

    let absolute_path = get_absolute_path(file_path, Ok(canonical.clone())).unwrap();
    assert!(absolute_path.starts_with('/'));
    assert_eq!(absolute_path, canonical);
}

#[test]
fn test_get_absolute_path_for_non_existent_file() {
    let file_path = "/tmp/dir/non_existent.txt";

    let result = get_absolute_path(file_path, Err(String::from("No such file or directory")));
    assert!(result.is_err());
    assert_eq!(
        result.unwrap_err(),
        FileError::AbsolutePath {
            path: file_path.to_string(),
            source: String::from("No such file or directory"),
        }
    );
}

#[test]
fn test_get_metadata_for_file() {
    let file_path = "/tmp/dir/test_file.txt";

    let metadata = get_metadata(file_probe(file_path, 6, now_secs())).unwrap();

    assert_eq!(metadata.entry_type, EntryType::File);
    assert_eq!(metadata.size, Some(6)); // "hello\n"
    assert!(metadata.absolute_path.ends_with("test_file.txt"));
}

#[test]
fn test_get_metadata_for_directory() {
    let dir_path = "/tmp/dir";

    let metadata = get_metadata(Probe {
        absolute_path: dir_path.to_string(),
        stat: Ok(FileStat {
            is_symlink: false,
            is_dir: true,
            is_file: false,
            len: 4096,
            modified: Ok(now_secs()),
        }),
        canonical_path: Ok(dir_path.to_string()),
    })
    .unwrap();

    assert_eq!(metadata.entry_type, EntryType::Directory);
    assert_eq!(metadata.size, None);
    assert_eq!(metadata.absolute_path, dir_path);
}

#[test]
fn test_get_metadata_for_symlink() {
    let metadata = get_metadata(Probe {
        absolute_path: String::from("/tmp/dir/link.txt"),
        stat: Ok(FileStat {
            is_symlink: true,
            is_dir: false,
            is_file: true,
            len: 17,
            modified: Ok(now_secs()),
        }),
        canonical_path: Ok(String::from("/tmp/dir/target.txt")),
    })
    .unwrap();

    assert_eq!(metadata.entry_type, EntryType::Symlink);
    assert_eq!(metadata.size, Some(17));
    assert_eq!(metadata.absolute_path, "/tmp/dir/target.txt");
}

#[test]
fn test_get_metadata_for_non_existent_path() {
    let file_path = "/tmp/dir/non_existent.txt";

    let result = get_metadata(missing_probe(file_path));
    assert!(result.is_err());

    match result.unwrap_err() {
        FileError::PathNotFound { .. } => (),
        other_error => panic!("Expected PathNotFound error, got {:?}", other_error),
    }
}

#[test]
fn get_metadata_tells_the_failures_apart() {
    let path = "/tmp/dir/x";
    let denied = Probe {
        absolute_path: path.to_string(),
        stat: Err(IoFailure { kind: FailureKind::PermissionDenied, detail: String::from("denied") }),
        canonical_path: Ok(path.to_string()),
    };
    assert_eq!(
        get_metadata(denied),
        Err(FileError::Metadata { path: path.to_string(), source: String::from("denied") })
    );

    let mut probe = file_probe(path, 1, 5);
    probe.canonical_path =
        Err(IoFailure { kind: FailureKind::Other, detail: String::from("loop") });
    assert_eq!(
        get_metadata(probe),
        Err(FileError::AbsolutePath { path: path.to_string(), source: String::from("loop") })
    );

    // A symlink that leads nowhere is there, but has no canonical form.
    let dangling = Probe {
        absolute_path: path.to_string(),
        stat: Ok(FileStat {
            is_symlink: true,
            is_dir: false,
            is_file: false,
            len: 9,
            modified: Ok(5),
        }),
        canonical_path: Err(IoFailure {
            kind: FailureKind::NotFound,
            detail: String::from("No such file or directory"),
        }),
    };
    assert_eq!(get_metadata(dangling), Err(FileError::PathNotFound { path: path.to_string() }));

    let mut probe = file_probe(path, 1, 5);
    probe.canonical_path = Ok(String::from("/real/x"));
    probe.stat = Ok(FileStat {
        is_symlink: false,
        is_dir: false,
        is_file: true,
        len: 1,
        modified: Err(String::from("unsupported")),
    });
    assert_eq!(
        get_metadata(probe),
        Err(FileError::ModifiedAccess {
            path: String::from("/real/x"),
            source: String::from("unsupported"),
        })
    );

    let mut probe = file_probe(path, 1, 5);
    probe.stat = Ok(FileStat {
        is_symlink: false,
        is_dir: false,
        is_file: false,
        len: 0,
        modified: Ok(5),
    });
    assert_eq!(get_metadata(probe), Err(FileError::UnsupportedType { path: path.to_string() }));
}

#[test]
fn resolve_path_places_relative_paths_under_the_working_directory() {
    assert_eq!(
        resolve_path("a.txt", Ok(String::from("/home/user"))),
        Ok(String::from("/home/user/a.txt"))
    );
    assert_eq!(
        resolve_path("sub/a.txt", Ok(String::from("/home/user/"))),
        Ok(String::from("/home/user/sub/a.txt"))
    );
    assert_eq!(
        resolve_path("/etc/hosts", Ok(String::from("/home/user"))),
        Ok(String::from("/etc/hosts"))
    );
    assert_eq!(
        resolve_path("/etc/hosts", Err(String::from("gone"))),
        Ok(String::from("/etc/hosts"))
    );
    assert_eq!(
        resolve_path("a.txt", Err(String::from("gone"))),
        Err(FileError::Cwd { source: String::from("gone") })
    );
}

#[test]
fn filter_invalid_entries_partitions_in_order() {
    let a = create_mock_record_entry(Some(String::from("/d/a")), None, None, Some(100), Some(1));
    let b = create_mock_record_entry(Some(String::from("/d/b")), None, None, Some(100), Some(1));
    let c = create_mock_record_entry(Some(String::from("/d/c")), None, None, Some(100), Some(1));
    let d = create_mock_record_entry(Some(String::from("/d/d")), None, None, Some(100), Some(1));
    let probes: Vec<ProbeResult> = vec![
        get_metadata(file_probe("/d/a", 1, 100)),
        get_metadata(missing_probe("/d/b")),
        get_metadata(file_probe("/d/c", 2, 100)),
    ];
    let entries = vec![a.clone(), b.clone(), c.clone(), d.clone()];
    let (valid, invalid, warnings) = filter_invalid_entries(&entries, &probes);
    assert_eq!(valid, vec![a, c]);
    assert_eq!(invalid, vec![b, d]);
    assert_eq!(
        warnings,
        vec![AppWarning::File(FileWarning::SizeMismatch {
            path: String::from("/d/c"),
            old_size: 1,
            new_size: 2,
        })]
    );
}

#[test]
fn patterns_to_expand_names_the_patterns_in_order() {
    let paths = vec![
        String::from("a.txt"),
        String::from("*.log"),
        String::from("dir/file"),
        String::from("img?.png"),
        String::from("set[12]"),
    ];
    assert_eq!(
        patterns_to_expand(&paths),
        vec![String::from("*.log"), String::from("img?.png"), String::from("set[12]")]
    );
}

#[test]
fn expand_paths_keeps_argument_order_and_sorts_each_pattern() {
    let paths = vec![
        String::from("z.txt"),
        String::from("d/*"),
        String::from("a.txt"),
        String::from("*.md"),
    ];
    let globbed = vec![
        GlobOutcome::Matched(vec![
            String::from("d/b"),
            String::from("d/a-b/x"),
            String::from("d/a/x"),
            String::from("d/a"),
        ]),
        GlobOutcome::Matched(Vec::new()),
    ];
    let (expanded, warnings) = expand_paths(paths, globbed).unwrap();
    assert_eq!(
        expanded,
        vec![
            String::from("z.txt"),
            String::from("d/a"),
            String::from("d/a/x"),
            String::from("d/a-b/x"),
            String::from("d/b"),
            String::from("a.txt"),
        ]
    );
    assert_eq!(
        warnings,
        vec![AppWarning::File(FileWarning::GlobUnmatched { path: String::from("*.md") })]
    );
}

#[test]
fn expand_paths_names_each_path_once() {
    let paths = vec![String::from("a.txt"), String::from("*.txt"), String::from("a.txt")];
    let globbed = vec![GlobOutcome::Matched(vec![String::from("b.txt"), String::from("a.txt")])];
    let (expanded, warnings) = expand_paths(paths, globbed).unwrap();
    assert_eq!(expanded, vec![String::from("a.txt"), String::from("b.txt")]);
    assert!(warnings.is_empty());
}

#[test]
fn expand_paths_fails_on_an_invalid_pattern() {
    let paths = vec![String::from("a.txt"), String::from("[a")];
    let globbed = vec![GlobOutcome::InvalidPattern(String::from("invalid range pattern"))];
    assert_eq!(
        expand_paths(paths, globbed),
        Err(FileError::GlobInvalidPattern {
            path: String::from("[a"),
            source: String::from("invalid range pattern"),
        })
    );
}

#[test]
fn expand_paths_fails_when_matching_could_not_read() {
    let paths = vec![String::from("secret/*")];
    let globbed = vec![GlobOutcome::Unreadable(String::from("Permission denied"))];
    assert_eq!(
        expand_paths(paths, globbed),
        Err(FileError::GlobUnreadable {
            path: String::from("secret/*"),
            source: String::from("Permission denied"),
        })
    );
}

#[test]
fn expand_paths_counts_a_pattern_without_outcome_as_unmatched() {
    let (expanded, warnings) = expand_paths(vec![String::from("*.rs")], Vec::new()).unwrap();
    assert!(expanded.is_empty());
    assert_eq!(
        warnings,
        vec![AppWarning::File(FileWarning::GlobUnmatched { path: String::from("*.rs") })]
    );
}

#[test]
fn handle_transfer_is_all_or_nothing() {
    let mut store = RecordStore::new();
    let old = create_mock_record_entry(Some(String::from("/d/old")), None, None, None, None);
    write_clipboard(&mut store, &[old.clone()]);
    store.clipboard_written = false;

    let paths = vec![String::from("/d/a"), String::from("/d/missing"), String::from("/d/c")];
    let probes = vec![
        get_metadata(file_probe("/d/a", 1, 5)),
        get_metadata(missing_probe("/d/missing")),
        get_metadata(file_probe("/d/c", 1, 5)),
    ];
    let result = handle_transfer(&mut store, paths, probes, Operation::Cut, 77);
    assert_eq!(
        result,
        Err(AppError::File(FileError::PathNotFound { path: String::from("/d/missing") }))
    );
    assert_eq!(store.clipboard, Some(vec![old]));
    assert_eq!(store.history, None);
    assert!(!store.clipboard_written);
    assert!(!store.history_written);
}

#[test]
fn handle_transfer_counts_an_unprobed_path_as_not_found() {
    let mut store = RecordStore::new();
    let paths = vec![String::from("/d/a"), String::from("/d/b")];
    let probes = vec![get_metadata(file_probe("/d/a", 1, 5))];
    let result = handle_transfer(&mut store, paths, probes, Operation::Copy, 77);
    assert_eq!(
        result,
        Err(AppError::File(FileError::PathNotFound { path: String::from("/d/b") }))
    );
    assert_eq!(store.clipboard, None);
}

#[test]
fn handle_transfer_pushes_each_entry_to_the_front() {
    let mut store = RecordStore::new();
    let old = create_mock_record_entry(Some(String::from("/d/old")), None, None, None, None);
    write_clipboard(&mut store, &[old.clone()]);

    let paths = vec![String::from("a"), String::from("dir")];
    let probes = vec![
        get_metadata(file_probe("/d/a", 10, 5)),
        Ok(Metadata {
            modified: 6,
            size: None,
            entry_type: EntryType::Directory,
            absolute_path: String::from("/d/dir"),
        }),
    ];
    let infos = handle_transfer(&mut store, paths, probes, Operation::Link, 1234).unwrap();
    assert_eq!(
        infos,
        vec![
            AppInfo::Link { path: String::from("a") },
            AppInfo::Link { path: String::from("dir") },
        ]
    );
    let clipboard = read_clipboard(&store).unwrap();
    assert_eq!(clipboard.len(), 3);
    assert_eq!(clipboard[0].path, "/d/dir");
    assert_eq!(clipboard[0].size, None);
    assert_eq!(clipboard[0].entry_type, EntryType::Directory);
    assert_eq!(clipboard[1].path, "/d/a");
    assert_eq!(clipboard[1].size, Some(10));
    assert_eq!(clipboard[1].entry_type, EntryType::File);
    assert_eq!(clipboard[2], old);
    for entry in &clipboard[..2] {
        assert_eq!(entry.operation, Operation::Link);
        assert_eq!(entry.timestamp, 1234);
        assert_eq!(
            entry.id & 0x0000_0000_0000_f000_c000_0000_0000_0000,
            0x0000_0000_0000_4000_8000_0000_0000_0000
        );
        let id = uuid::Uuid::from_u128(entry.id);
        assert_eq!(id.get_version_num(), 4);
        assert_eq!(id.get_variant(), uuid::Variant::RFC4122);
    }
    assert_ne!(clipboard[0].id, clipboard[1].id);
}

#[test]
fn recorded_takes_the_snapshot_from_the_probe() {
    let found = Metadata {
        modified: 50,
        size: Some(3),
        entry_type: EntryType::Symlink,
        absolute_path: String::from("/d/link"),
    };
    let entry = RecordEntry::recorded(found, Operation::Cut, 99, 0xabc);
    assert_eq!(
        entry,
        RecordEntry {
            timestamp: 99,
            size: Some(3),
            operation: Operation::Cut,
            entry_type: EntryType::Symlink,
            path: String::from("/d/link"),
            id: 0xabc,
        }
    );
}

#[test]
fn record_entries_puts_the_last_added_first() {
    let mut store = RecordStore::new();
    let a = create_mock_record_entry(Some(String::from("/d/a")), None, None, None, None);
    let b = create_mock_record_entry(Some(String::from("/d/b")), None, None, None, None);
    let c = create_mock_record_entry(Some(String::from("/d/c")), None, None, None, None);
    write_clipboard(&mut store, &[a.clone()]);
    record_entries(&mut store, &vec![b.clone(), c.clone()]);
    assert_eq!(store.clipboard, Some(vec![c, b, a]));
}
