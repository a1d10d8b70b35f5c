use file_clipper::errors::{AppError, AppInfo, AppWarning, FailureKind, IoFailure, RecordError, RecordWarning};
use file_clipper::models::{EntryType, Operation, RecordData, RecordEntry, RecordType};
use file_clipper::records::{
    clear_records, clear_targets, cleared, get_storage_dir, get_storage_path, handle_remove,
    read_clipboard, read_entries, read_history, read_records, salvage, write_clipboard,
    write_history, write_records, RecordStore, MAX_CLIPBOARD_ENTRIES,
};
use std::time::{SystemTime, UNIX_EPOCH};

const STATE_DIR: &str = "/home/user/.local/state";

fn new_id() -> u128 {
    uuid::Uuid::new_v4().as_u128()
}

fn create_mock_record_entry(
    path: Option<String>,
    operation: Option<Operation>,
    entry_type: Option<EntryType>,
    timestamp: Option<u64>,
    size: Option<u64>,
) -> RecordEntry {
    RecordEntry {
        id: new_id(),
        timestamp: timestamp
            .unwrap_or_else(|| SystemTime::now().duration_since(UNIX_EPOCH).unwrap().as_secs()),
        operation: operation.unwrap_or(Operation::Copy),
        entry_type: entry_type.unwrap_or(EntryType::File),
        path: path.unwrap_or_else(|| format!("/tmp/file_{}.txt", uuid::Uuid::new_v4())),
        size: size.or(Some(123)),
    }
}

#[test]
fn test_write_records_capping() {
    let mut store = RecordStore::new();

    let mut entries = Vec::new();
    for _ in 0..(MAX_CLIPBOARD_ENTRIES + 50) {
        entries.push(create_mock_record_entry(None, None, None, None, None));
    }

    write_clipboard(&mut store, &entries);

    let capped_clipboard = read_clipboard(&store).unwrap();
    assert_eq!(capped_clipboard.len(), MAX_CLIPBOARD_ENTRIES);
    assert_eq!(capped_clipboard[..], entries[..MAX_CLIPBOARD_ENTRIES]);
}

#[test]
fn test_handle_remove_existing() {
    let mut store = RecordStore::new();
    let entry1 = create_mock_record_entry(
        Some(String::from("/tmp/file1")),
        Some(Operation::Copy),
        None,
        None,
        None,
    );
    let entry2 = create_mock_record_entry(
        Some(String::from("/tmp/file2")),
        Some(Operation::Copy),
        None,
        None,
        None,
    );
    write_clipboard(&mut store, &[entry1.clone(), entry2.clone()]);

    let result = handle_remove(&mut store, entry1.id);
    assert!(result.is_empty());

    let clipboard = read_clipboard(&store).unwrap();
    assert_eq!(clipboard.len(), 1);
    assert_eq!(clipboard[0].id, entry2.id);
}

#[test]
fn test_handle_remove_non_existing() {
    let mut store = RecordStore::new();
    let entry1 = create_mock_record_entry(
        Some(String::from("/tmp/file1")),
        Some(Operation::Copy),
        None,
        None,
        None,
    );
    write_clipboard(&mut store, &[entry1.clone()]);
    store.clipboard_written = false;

    let random_id = new_id();
    let result = handle_remove(&mut store, random_id);
    assert!(!result.is_empty());
    assert!(matches!(
        result[0],
        AppWarning::Record(RecordWarning::EntryNotFound)
    ));
    assert_eq!(result.len(), 1);
    assert_eq!(store.clipboard, Some(vec![entry1]));
    assert!(!store.clipboard_written);
}

#[test]
fn test_clear_records_success() {
    let mut store = RecordStore::new();

    let clipboard_entry = create_mock_record_entry(None, None, None, None, None);
    write_clipboard(&mut store, &[clipboard_entry]);
    let history_entry = create_mock_record_entry(None, None, None, None, None);
    write_history(&mut store, &[history_entry]);

    let clipboard_path = get_storage_path(Some(STATE_DIR), RecordType::Clipboard).unwrap();
    let history_path = get_storage_path(Some(STATE_DIR), RecordType::History).unwrap();
    let dir_path = get_storage_dir(Some(STATE_DIR)).unwrap();

    let result =
        clear_records(&mut store, Some(STATE_DIR), vec![Ok(()), Ok(()), Ok(())]).unwrap();

    assert_eq!(result.len(), 3);
    assert!(matches!(&result[0], AppInfo::Clear { path: p } if p == &clipboard_path));
    assert!(matches!(&result[1], AppInfo::Clear { path: p } if p == &history_path));
    assert!(matches!(&result[2], AppInfo::Clear { path: p } if p == &dir_path));

    assert_eq!(read_clipboard(&store), None);
    assert_eq!(read_history(&store), None);
}

#[test]
fn test_clear_records_when_empty() {
    let mut store = RecordStore::new();
    let missing = || {
        Err(IoFailure { kind: FailureKind::NotFound, detail: String::from("No such file") })
    };

    let result =
        clear_records(&mut store, Some(STATE_DIR), vec![missing(), missing(), missing()]).unwrap();

    assert_eq!(result.len(), 3);
}

#[test]
fn test_read_entries_clipboard() {
    let mut store = RecordStore::new();
    let entry = create_mock_record_entry(None, None, None, None, None);
    write_clipboard(&mut store, std::slice::from_ref(&entry));

    let entries = read_entries(&store, &RecordType::Clipboard);
    assert_eq!(entries.len(), 1);
    assert_eq!(entries[0].id, entry.id);
}

#[test]
fn test_read_entries_history() {
    let mut store = RecordStore::new();
    let entry = create_mock_record_entry(None, None, None, None, None);
    write_history(&mut store, std::slice::from_ref(&entry));

    let entries = read_entries(&store, &RecordType::History);
    assert_eq!(entries.len(), 1);
    assert_eq!(entries[0].id, entry.id);
}

#[test]
fn test_read_entries_empty_clipboard() {
    let store = RecordStore::new();
    let entries = read_entries(&store, &RecordType::Clipboard);
    assert!(entries.is_empty());
}

#[test]
fn test_read_entries_empty_history() {
    let store = RecordStore::new();
    let entries = read_entries(&store, &RecordType::History);
    assert!(entries.is_empty());
}

#[test]
fn test_write_clipboard_ordering() {
    let mut store = RecordStore::new();
    let entry1 = create_mock_record_entry(
        Some(String::from("/tmp/file1")),
        Some(Operation::Copy),
        None,
        None,
        None,
    );
    let entry2 = create_mock_record_entry(
        Some(String::from("/tmp/file2")),
        Some(Operation::Cut),
        None,
        None,
        None,
    );
    let entry3 = create_mock_record_entry(
        Some(String::from("/tmp/file3")),
        Some(Operation::Link),
        None,
        None,
        None,
    );

    write_clipboard(&mut store, &[entry1.clone(), entry2.clone(), entry3.clone()]);

    let clipboard = read_clipboard(&store).unwrap();
    assert_eq!(clipboard.len(), 3);
    assert_eq!(clipboard[0].id, entry1.id);
    assert_eq!(clipboard[1].id, entry2.id);
    assert_eq!(clipboard[2].id, entry3.id);
}

#[test]
fn test_write_history_ordering() {
    let mut store = RecordStore::new();
    let entry1 = create_mock_record_entry(None, None, None, None, None);
    let entry2 = create_mock_record_entry(None, None, None, None, None);

    write_history(&mut store, &[entry1.clone(), entry2.clone()]);

    let history = read_history(&store).unwrap();
    assert_eq!(history.len(), 2);
    assert_eq!(history[0].id, entry1.id);
    assert_eq!(history[1].id, entry2.id);
}

#[test]
fn test_handle_remove_with_empty_clipboard() {
    let mut store = RecordStore::new();
    let random_id = new_id();
    let result = handle_remove(&mut store, random_id);

    assert!(!result.is_empty());
    assert!(matches!(
        result[0],
        AppWarning::Record(RecordWarning::ClipboardUnreadable)
    ));
    assert_eq!(store.clipboard, None);
    assert!(!store.clipboard_written);
}

#[test]
fn test_handle_remove_last_entry() {
    let mut store = RecordStore::new();
    let entry = create_mock_record_entry(None, None, None, None, None);
    write_clipboard(&mut store, std::slice::from_ref(&entry));

    let result = handle_remove(&mut store, entry.id);
    assert!(result.is_empty());

    let clipboard = read_clipboard(&store).unwrap();
    assert!(clipboard.is_empty());
}

#[test]
fn test_handle_remove_middle_entry() {
    let mut store = RecordStore::new();
    let entry1 = create_mock_record_entry(None, None, None, None, None);
    let entry2 = create_mock_record_entry(None, None, None, None, None);
    let entry3 = create_mock_record_entry(None, None, None, None, None);
    write_clipboard(&mut store, &[entry1.clone(), entry2.clone(), entry3.clone()]);

    let result = handle_remove(&mut store, entry2.id);
    assert!(result.is_empty());

    let clipboard = read_clipboard(&store).unwrap();
    assert_eq!(clipboard.len(), 2);
    assert_eq!(clipboard[0].id, entry1.id);
    assert_eq!(clipboard[1].id, entry3.id);
}

#[test]
fn test_write_records_exceeding_max() {
    let mut store = RecordStore::new();
    let mut entries = Vec::new();
    for _ in 0..(MAX_CLIPBOARD_ENTRIES + 100) {
        entries.push(create_mock_record_entry(None, None, None, None, None));
    }

    write_clipboard(&mut store, &entries);

    let clipboard = read_clipboard(&store).unwrap();
    assert_eq!(clipboard.len(), MAX_CLIPBOARD_ENTRIES);
    assert_eq!(clipboard[0].id, entries[0].id);
    assert_eq!(
        clipboard[MAX_CLIPBOARD_ENTRIES - 1].id,
        entries[MAX_CLIPBOARD_ENTRIES - 1].id
    );
}

#[test]
fn test_get_storage_path_clipboard() {
    let result = get_storage_path(Some(STATE_DIR), RecordType::Clipboard);
    assert!(result.is_ok());
    let path = result.unwrap();
    assert!(path.contains("clipboard.toml"));
    assert_eq!(path, "/home/user/.local/state/file_clipper/clipboard.toml");
}

#[test]
fn test_get_storage_path_history() {
    let result = get_storage_path(Some(STATE_DIR), RecordType::History);
    assert!(result.is_ok());
    let path = result.unwrap();
    assert!(path.contains("history.toml"));
    assert_eq!(path, "/home/user/.local/state/file_clipper/history.toml");
}

#[test]
fn storage_paths_need_a_state_directory() {
    assert_eq!(get_storage_dir(None), Err(RecordError::GetStateDir));
    assert_eq!(get_storage_path(None, RecordType::Clipboard), Err(RecordError::GetStateDir));
    assert_eq!(clear_targets(None), Err(RecordError::GetStateDir));
    let mut store = RecordStore::new();
    assert_eq!(
        clear_records(&mut store, None, Vec::new()),
        Err(AppError::Record(RecordError::GetStateDir))
    );
}

#[test]
fn clear_targets_names_files_before_the_directory() {
    assert_eq!(
        clear_targets(Some("/state/")),
        Ok(vec![
            String::from("/state/file_clipper/clipboard.toml"),
            String::from("/state/file_clipper/history.toml"),
            String::from("/state/file_clipper"),
        ])
    );
}

#[test]
fn write_then_read_gives_the_same_entries_in_order() {
    let mut store = RecordStore::new();
    let entries: Vec<RecordEntry> =
        (0..200).map(|_| create_mock_record_entry(None, None, None, None, None)).collect();
    write_records(&mut store, &entries, RecordType::History);
    assert_eq!(read_records(&store, RecordType::History), Some(entries));
    assert_eq!(read_records(&store, RecordType::Clipboard), None);
    assert!(store.history_written);
    assert!(!store.clipboard_written);
}

#[test]
fn a_write_of_250_entries_keeps_the_first_200() {
    let mut store = RecordStore::new();
    let entries: Vec<RecordEntry> =
        (0..250).map(|_| create_mock_record_entry(None, None, None, None, None)).collect();
    write_history(&mut store, &entries);
    let kept = read_history(&store).unwrap();
    assert_eq!(kept.len(), 200);
    assert_eq!(kept[..], entries[..200]);
}

#[test]
fn handle_remove_takes_out_every_entry_with_the_id() {
    let mut store = RecordStore::new();
    let a = create_mock_record_entry(None, None, None, None, None);
    let mut twin = create_mock_record_entry(None, None, None, None, None);
    twin.id = a.id;
    let b = create_mock_record_entry(None, None, None, None, None);
    write_clipboard(&mut store, &[a.clone(), b.clone(), twin]);
    assert!(handle_remove(&mut store, a.id).is_empty());
    assert_eq!(store.clipboard, Some(vec![b]));
    assert!(store.clipboard_written);
}

#[test]
fn cleared_forgives_a_missing_path_only() {
    let path = String::from("/state/file_clipper/clipboard.toml");
    assert_eq!(cleared(path.clone(), Ok(())), Ok(AppInfo::Clear { path: path.clone() }));
    assert_eq!(
        cleared(
            path.clone(),
            Err(IoFailure { kind: FailureKind::NotFound, detail: String::from("gone") })
        ),
        Ok(AppInfo::Clear { path: path.clone() })
    );
    assert_eq!(
        cleared(
            path.clone(),
            Err(IoFailure { kind: FailureKind::PermissionDenied, detail: String::from("denied") })
        ),
        Err(RecordError::ClearRecords { path, source: String::from("denied") })
    );
}

#[test]
fn clear_records_stops_at_the_first_failure() {
    let mut store = RecordStore::new();
    let entry = create_mock_record_entry(None, None, None, None, None);
    write_clipboard(&mut store, &[entry.clone()]);
    let result = clear_records(
        &mut store,
        Some(STATE_DIR),
        vec![
            Ok(()),
            Err(IoFailure { kind: FailureKind::Other, detail: String::from("busy") }),
            Ok(()),
        ],
    );
    assert_eq!(
        result,
        Err(AppError::Record(RecordError::ClearRecords {
            path: String::from("/home/user/.local/state/file_clipper/history.toml"),
            source: String::from("busy"),
        }))
    );
    assert_eq!(store.clipboard, Some(vec![entry]));
}

#[test]
fn clear_records_reports_only_the_removals_handed_in() {
    let mut store = RecordStore::new();
    let result = clear_records(&mut store, Some(STATE_DIR), vec![Ok(())]).unwrap();
    assert_eq!(
        result,
        vec![AppInfo::Clear {
            path: String::from("/home/user/.local/state/file_clipper/clipboard.toml"),
        }]
    );
}

#[test]
fn salvage_passes_over_a_file_that_cannot_be_parsed() {
    let entry = create_mock_record_entry(None, None, None, None, None);
    assert_eq!(
        salvage(Ok(Some(RecordData { entries: vec![entry.clone()] }))),
        Ok((Some(vec![entry]), None))
    );
    assert_eq!(salvage(Ok(None)), Ok((None, None)));
    let broken = RecordError::DeserializeRecordFile {
        path: String::from("/state/file_clipper/clipboard.toml"),
        source: String::from("expected `=`"),
    };
    assert_eq!(salvage(Err(broken.clone())), Ok((None, Some(broken))));
    let closed = RecordError::OpenRecordFile {
        path: String::from("/state/file_clipper/clipboard.toml"),
        source: String::from("Permission denied"),
    };
    assert_eq!(salvage(Err(closed.clone())), Err(closed));
}
