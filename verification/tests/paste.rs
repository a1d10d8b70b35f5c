use file_clipper::errors::{AppError, AppInfo, AppWarning, FileError, FileWarning};
use file_clipper::files::{handle_transfer, ProbeResult};
use file_clipper::models::{EntryType, Metadata, Operation, PasteContent, RecordEntry, RecordType};
use file_clipper::paste::{
    handle_paste, paste_candidates, OperationOutcome, PasteRequest, PasteSession,
};
use file_clipper::records::{
    read_clipboard, read_history, write_clipboard, write_history, RecordStore,
};

const SOURCE_DIR: &str = "/home/user/source";
const DEST_DIR: &str = "/home/user/dest";

fn new_id() -> u128 {
    uuid::Uuid::new_v4().as_u128()
}

fn found(path: &str) -> ProbeResult {
    Ok(Metadata {
        modified: 1_700_000_000,
        size: Some(1),
        entry_type: EntryType::File,
        absolute_path: path.to_string(),
    })
}

fn not_found(path: &str) -> ProbeResult {
    Err(FileError::PathNotFound { path: path.to_string() })
}

fn get_test_entry(path: &str, operation: Operation) -> RecordEntry {
    RecordEntry {
        id: new_id(),
        timestamp: 1_700_000_000,
        size: Some(1),
        operation,
        entry_type: EntryType::File,
        path: path.to_string(),
    }
}

#[test]
fn test_handle_paste_copy() {
    let mut store = RecordStore::new();
    let file_path = format!("{}/a.txt", SOURCE_DIR);
    let entry = get_test_entry(&file_path, Operation::Copy);
    write_clipboard(&mut store, &[entry.clone()]);

    let (infos, warnings) = handle_paste(
        &mut store,
        DEST_DIR.to_string(),
        None,
        &vec![found(&file_path)],
        &vec![OperationOutcome::Success],
    )
    .unwrap();

    assert_eq!(infos.len(), 1);
    assert!(warnings.is_empty());
    assert_eq!(infos[0], AppInfo::Paste { path: file_path.clone() });

    let history = read_history(&store).unwrap();
    assert_eq!(history.len(), 1);
    assert_eq!(history[0], entry);
    assert_eq!(read_clipboard(&store), Some(Vec::new()));
}

#[test]
fn test_handle_paste_cut() {
    let mut store = RecordStore::new();
    let file_path = format!("{}/a.txt", SOURCE_DIR);
    let entry = get_test_entry(&file_path, Operation::Cut);
    write_clipboard(&mut store, &[entry.clone()]);

    let (infos, warnings) = handle_paste(
        &mut store,
        DEST_DIR.to_string(),
        None,
        &vec![found(&file_path)],
        &vec![OperationOutcome::Success],
    )
    .unwrap();

    assert_eq!(infos.len(), 1);
    assert!(warnings.is_empty());
    let dest_file_path = format!("{}/a.txt", DEST_DIR);
    assert_eq!(infos[0], AppInfo::Paste { path: dest_file_path.clone() });

    let history = read_history(&store).unwrap();
    assert_eq!(history[0].path, dest_file_path);
    assert_eq!(history[0].id, entry.id);
    assert_eq!(history[0].operation, Operation::Cut);
    let clipboard = read_clipboard(&store).unwrap();
    assert!(clipboard.iter().all(|e| e.id != entry.id));
}

#[test]
fn test_handle_paste_link() {
    let store = RecordStore {
        clipboard: Some(vec![get_test_entry(&format!("{}/a.txt", SOURCE_DIR), Operation::Link)]),
        history: None,
        clipboard_written: false,
        history_written: false,
    };
    let file_path = format!("{}/a.txt", SOURCE_DIR);

    let mut session =
        PasteSession::begin(&store, DEST_DIR.to_string(), None, &vec![found(&file_path)]);

    let dest_link_path = format!("{}/a.txt", DEST_DIR);
    assert_eq!(
        session.next_request(),
        Some(PasteRequest::Link { target: file_path.clone(), link: dest_link_path })
    );
    session.record(OperationOutcome::Success);
    assert_eq!(session.next_request(), None);

    let mut store = store;
    let (infos, warnings) = session.finish(&mut store).unwrap();
    assert_eq!(infos, vec![AppInfo::Paste { path: file_path.clone() }]);
    assert!(warnings.is_empty());
    let history = read_history(&store).unwrap();
    assert_eq!(history.len(), 1);
    assert_eq!(history[0].path, file_path);
    assert_eq!(history[0].operation, Operation::Link);
}

#[test]
fn test_handle_paste_with_invalid_entry() {
    let mut store = RecordStore::new();
    let non_existent_path = format!("{}/a.txt", SOURCE_DIR);
    let entry = get_test_entry(&non_existent_path, Operation::Copy);
    write_clipboard(&mut store, &[entry.clone()]);

    let (infos, warnings) = handle_paste(
        &mut store,
        DEST_DIR.to_string(),
        None,
        &vec![not_found(&non_existent_path)],
        &Vec::new(),
    )
    .unwrap();

    assert!(infos.is_empty());
    assert!(warnings.is_empty());

    let clipboard = read_clipboard(&store).unwrap();
    assert_eq!(clipboard.len(), 1);
    assert_eq!(clipboard[0].id, entry.id);
}

#[test]
fn test_handle_paste_with_existing_entry() {
    let mut store = RecordStore::new();
    let file_path = format!("{}/a.txt", SOURCE_DIR);
    let entry = get_test_entry(&file_path, Operation::Copy);
    write_clipboard(&mut store, &[entry.clone()]);

    let (infos, warnings) = handle_paste(
        &mut store,
        DEST_DIR.to_string(),
        None,
        &vec![found(&file_path)],
        &vec![OperationOutcome::AlreadyExists],
    )
    .unwrap();

    assert!(infos.is_empty());
    assert!(!warnings.is_empty());
    assert!(matches!(
        warnings[0],
        AppWarning::File(FileWarning::AlreadyExists { .. })
    ));

    let clipboard = read_clipboard(&store).unwrap();
    assert_eq!(clipboard.len(), 1);
    assert_eq!(clipboard[0].id, entry.id);
    assert_eq!(read_history(&store), Some(Vec::new()));
}

#[test]
fn test_handle_paste_duplicate_entries() {
    let mut store = RecordStore::new();
    let file_path = format!("{}/duplicate.txt", SOURCE_DIR);

    let entry1 = get_test_entry(&file_path, Operation::Copy);
    let entry2 = get_test_entry(&file_path, Operation::Copy);

    write_clipboard(&mut store, &[entry1.clone(), entry2.clone()]);

    let (infos, warnings) = handle_paste(
        &mut store,
        DEST_DIR.to_string(),
        None,
        &vec![found(&file_path), found(&file_path)],
        &vec![OperationOutcome::Success, OperationOutcome::AlreadyExists],
    )
    .unwrap();

    assert_eq!(infos.len(), 1);
    assert_eq!(warnings.len(), 1);

    assert!(matches!(infos[0], AppInfo::Paste { .. }));
    assert!(matches!(
        warnings[0],
        AppWarning::File(FileWarning::AlreadyExists { .. })
    ));
    let clipboard = read_clipboard(&store).unwrap();
    assert_eq!(clipboard.len(), 1);
    assert_eq!(clipboard[0].id, entry2.id);
}

#[test]
fn copy_then_paste_end_to_end() {
    let mut store = RecordStore::new();
    let a = String::from("/home/user/a.txt");
    let infos = handle_transfer(
        &mut store,
        vec![String::from("a.txt")],
        vec![found(&a)],
        Operation::Copy,
        1_700_000_100,
    )
    .unwrap();
    assert_eq!(infos, vec![AppInfo::Copy { path: String::from("a.txt") }]);
    let clipboard = read_clipboard(&store).unwrap();
    assert_eq!(clipboard.len(), 1);
    assert_eq!(clipboard[0].operation, Operation::Copy);
    assert_eq!(clipboard[0].path, a);

    let candidates = paste_candidates(&store, &None);
    assert_eq!(candidates, clipboard);
    let mut session =
        PasteSession::begin(&store, String::from("/home/user/dest"), None, &vec![found(&a)]);
    assert_eq!(
        session.next_request(),
        Some(PasteRequest::Copy { from: a.clone(), to: String::from("/home/user/dest") })
    );
    session.record(OperationOutcome::Success);
    assert_eq!(session.next_request(), None);
    let (infos, warnings) = session.finish(&mut store).unwrap();
    assert_eq!(infos, vec![AppInfo::Paste { path: a.clone() }]);
    assert!(warnings.is_empty());

    assert_eq!(read_clipboard(&store), Some(Vec::new()));
    let history = read_history(&store).unwrap();
    assert_eq!(history.len(), 1);
    assert_eq!(history[0].id, clipboard[0].id);
    assert!(store.clipboard_written);
    assert!(store.history_written);
}

#[test]
fn permission_denied_is_a_warning_and_keeps_the_entry() {
    let mut store = RecordStore::new();
    let path = format!("{}/a.txt", SOURCE_DIR);
    let entry = get_test_entry(&path, Operation::Cut);
    write_clipboard(&mut store, &[entry.clone()]);
    let (infos, warnings) = handle_paste(
        &mut store,
        DEST_DIR.to_string(),
        None,
        &vec![found(&path)],
        &vec![OperationOutcome::PermissionDenied],
    )
    .unwrap();
    assert!(infos.is_empty());
    assert_eq!(
        warnings,
        vec![AppWarning::File(FileWarning::NoPermission {
            path: path.clone(),
            destination: DEST_DIR.to_string(),
        })]
    );
    assert_eq!(read_clipboard(&store), Some(vec![entry]));
    assert_eq!(read_history(&store), Some(Vec::new()));
}

#[test]
fn any_other_failure_aborts_and_leaves_the_stores() {
    let path_a = format!("{}/a.txt", SOURCE_DIR);
    let path_b = format!("{}/b.txt", SOURCE_DIR);
    let path_c = format!("{}/c.txt", SOURCE_DIR);
    let a = get_test_entry(&path_a, Operation::Copy);
    let b = get_test_entry(&path_b, Operation::Cut);
    let c = get_test_entry(&path_c, Operation::Copy);
    let mut store = RecordStore::loaded(Some(vec![a.clone(), b.clone(), c.clone()]), None);

    let result = handle_paste(
        &mut store,
        DEST_DIR.to_string(),
        None,
        &vec![found(&path_a), found(&path_b), found(&path_c)],
        &vec![
            OperationOutcome::Success,
            OperationOutcome::OtherFailure(String::from("disk full")),
            OperationOutcome::Success,
        ],
    );
    assert_eq!(
        result,
        Err(AppError::File(FileError::Move {
            from_path: path_b,
            to_path: DEST_DIR.to_string(),
            source: String::from("disk full"),
        }))
    );
    assert_eq!(store.clipboard, Some(vec![a, b, c]));
    assert_eq!(store.history, None);
    assert!(!store.clipboard_written);
    assert!(!store.history_written);
}

#[test]
fn failures_are_named_after_the_operation() {
    for (operation, expected) in [
        (
            Operation::Copy,
            FileError::Copy {
                from_path: String::from("/s/x"),
                to_path: String::from("/d"),
                source: String::from("boom"),
            },
        ),
        (
            Operation::Link,
            FileError::Link {
                from_path: String::from("/s/x"),
                to_path: String::from("/d"),
                source: String::from("boom"),
            },
        ),
    ] {
        let mut store = RecordStore::loaded(Some(vec![get_test_entry("/s/x", operation)]), None);
        let result = handle_paste(
            &mut store,
            String::from("/d"),
            None,
            &vec![found("/s/x")],
            &vec![OperationOutcome::OtherFailure(String::from("boom"))],
        );
        assert_eq!(result, Err(AppError::File(expected)));
    }
}

#[test]
fn replaying_history_copies_and_touches_no_store() {
    let path_a = format!("{}/a.txt", SOURCE_DIR);
    let path_b = format!("{}/b.txt", SOURCE_DIR);
    let a = get_test_entry(&path_a, Operation::Cut);
    let b = get_test_entry(&path_b, Operation::Link);
    let clip = get_test_entry("/home/user/other", Operation::Copy);
    let mut store = RecordStore::loaded(Some(vec![clip.clone()]), Some(vec![a.clone(), b.clone()]));
    let content = PasteContent { entries: vec![a.clone(), b.clone()], source: RecordType::History };

    let session = PasteSession::begin(
        &store,
        DEST_DIR.to_string(),
        Some(content.clone()),
        &vec![found(&path_a), found(&path_b)],
    );
    assert_eq!(
        session.next_request(),
        Some(PasteRequest::Copy { from: path_a.clone(), to: DEST_DIR.to_string() })
    );

    let (infos, warnings) = handle_paste(
        &mut store,
        DEST_DIR.to_string(),
        Some(content),
        &vec![found(&path_a), found(&path_b)],
        &vec![OperationOutcome::Success, OperationOutcome::Success],
    )
    .unwrap();
    assert_eq!(
        infos,
        vec![AppInfo::Paste { path: path_a }, AppInfo::Paste { path: path_b }]
    );
    assert!(warnings.is_empty());
    assert_eq!(store.clipboard, Some(vec![clip]));
    assert_eq!(store.history, Some(vec![a, b]));
    assert!(!store.clipboard_written);
    assert!(!store.history_written);
}

#[test]
fn an_explicit_selection_leaves_the_rest_of_the_clipboard() {
    let paths: Vec<String> = (0..4).map(|i| format!("{}/f{}", SOURCE_DIR, i)).collect();
    let entries: Vec<RecordEntry> =
        paths.iter().map(|p| get_test_entry(p, Operation::Copy)).collect();
    let old_history = get_test_entry("/home/user/earlier", Operation::Copy);
    let mut store = RecordStore::loaded(Some(entries.clone()), Some(vec![old_history.clone()]));
    let content = PasteContent {
        entries: vec![entries[0].clone(), entries[2].clone(), entries[3].clone()],
        source: RecordType::Clipboard,
    };
    let (infos, warnings) = handle_paste(
        &mut store,
        DEST_DIR.to_string(),
        Some(content),
        &vec![found(&paths[0]), not_found(&paths[2]), found(&paths[3])],
        &vec![OperationOutcome::Success, OperationOutcome::Success],
    )
    .unwrap();
    assert_eq!(infos.len(), 2);
    assert!(warnings.is_empty());
    // The entry that was not selected and the one that could not be probed stay.
    assert_eq!(store.clipboard, Some(vec![entries[1].clone(), entries[2].clone()]));
    // The newest paste comes first in the history.
    assert_eq!(
        store.history,
        Some(vec![entries[3].clone(), entries[0].clone(), old_history])
    );
}

#[test]
fn validity_warnings_come_before_collision_warnings() {
    let path_a = format!("{}/a", SOURCE_DIR);
    let path_b = format!("{}/b", SOURCE_DIR);
    let a = get_test_entry(&path_a, Operation::Copy);
    let b = get_test_entry(&path_b, Operation::Copy);
    let mut store = RecordStore::loaded(Some(vec![a, b]), None);
    let drifted: ProbeResult = Ok(Metadata {
        modified: 1_700_000_000,
        size: Some(2),
        entry_type: EntryType::File,
        absolute_path: path_b.clone(),
    });
    let (_, warnings) = handle_paste(
        &mut store,
        DEST_DIR.to_string(),
        None,
        &vec![found(&path_a), drifted],
        &vec![OperationOutcome::AlreadyExists, OperationOutcome::Success],
    )
    .unwrap();
    assert_eq!(
        warnings,
        vec![
            AppWarning::File(FileWarning::SizeMismatch {
                path: path_b,
                old_size: 1,
                new_size: 2,
            }),
            AppWarning::File(FileWarning::AlreadyExists { path: path_a }),
        ]
    );
}

#[test]
fn an_entry_without_a_file_name_cannot_be_moved_or_linked() {
    for operation in [Operation::Cut, Operation::Link] {
        let store = RecordStore::loaded(Some(vec![get_test_entry("/", operation)]), None);
        let mut session = PasteSession::begin(&store, DEST_DIR.to_string(), None, &vec![found("/")]);
        assert_eq!(session.next_request(), None);
        session.record(OperationOutcome::Success);
        let mut store = store;
        assert_eq!(
            session.finish(&mut store),
            Err(AppError::File(FileError::FileName { path: String::from("/") }))
        );
        assert!(!store.clipboard_written);
    }
}

#[test]
fn a_session_that_is_over_ignores_further_outcomes() {
    let path = format!("{}/a", SOURCE_DIR);
    let a = get_test_entry(&path, Operation::Copy);
    let mut store = RecordStore::loaded(Some(vec![a.clone()]), None);
    let (infos, warnings) = handle_paste(
        &mut store,
        DEST_DIR.to_string(),
        None,
        &vec![found(&path)],
        &vec![
            OperationOutcome::Success,
            OperationOutcome::OtherFailure(String::from("late")),
            OperationOutcome::AlreadyExists,
        ],
    )
    .unwrap();
    assert_eq!(infos.len(), 1);
    assert!(warnings.is_empty());
    assert_eq!(store.history, Some(vec![a]));
}

#[test]
fn entries_without_an_outcome_stay_on_the_clipboard() {
    let path_a = format!("{}/a", SOURCE_DIR);
    let path_b = format!("{}/b", SOURCE_DIR);
    let a = get_test_entry(&path_a, Operation::Copy);
    let b = get_test_entry(&path_b, Operation::Copy);
    let mut store = RecordStore::loaded(Some(vec![a.clone(), b.clone()]), None);
    let (infos, _) = handle_paste(
        &mut store,
        DEST_DIR.to_string(),
        None,
        &vec![found(&path_a), found(&path_b)],
        &vec![OperationOutcome::Success],
    )
    .unwrap();
    assert_eq!(infos.len(), 1);
    assert_eq!(store.clipboard, Some(vec![b]));
    assert_eq!(store.history, Some(vec![a]));
}

#[test]
fn the_history_is_capped_after_a_paste() {
    let old: Vec<RecordEntry> =
        (0..200).map(|i| get_test_entry(&format!("/old/{}", i), Operation::Copy)).collect();
    let path = format!("{}/a", SOURCE_DIR);
    let a = get_test_entry(&path, Operation::Copy);
    let mut store = RecordStore::new();
    write_clipboard(&mut store, &[a.clone()]);
    write_history(&mut store, &old);
    handle_paste(
        &mut store,
        DEST_DIR.to_string(),
        None,
        &vec![found(&path)],
        &vec![OperationOutcome::Success],
    )
    .unwrap();
    let history = read_history(&store).unwrap();
    assert_eq!(history.len(), 200);
    assert_eq!(history[0], a);
    assert_eq!(history[1], old[0]);
    assert_eq!(history[199], old[198]);
}

#[test]
fn a_moved_entry_lands_in_the_destination_under_its_name() {
    let entry = get_test_entry("/data/reports/q1.pdf", Operation::Cut);
    let mut store = RecordStore::loaded(Some(vec![entry.clone()]), None);
    let session =
        PasteSession::begin(&store, String::from("/backup/"), None, &vec![found(&entry.path)]);
    assert_eq!(
        session.next_request(),
        Some(PasteRequest::Move {
            from: String::from("/data/reports/q1.pdf"),
            to: String::from("/backup/"),
        })
    );
    handle_paste(
        &mut store,
        String::from("/backup/"),
        None,
        &vec![found(&entry.path)],
        &vec![OperationOutcome::Success],
    )
    .unwrap();
    assert_eq!(store.history.unwrap()[0].path, "/backup/q1.pdf");
}
