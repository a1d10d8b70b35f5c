//! The two persisted stores, as they stand in memory.
//!
//! A `RecordStore` holds what the clipboard file and the history file
//! contain. Whoever owns the files loads them into a store, lets the engine
//! work on it, and writes back each store that is marked as written.

use vstd::prelude::*;
use crate::errors::{AppError, AppInfo, AppInfoView, AppWarning, AppWarningView, FailureKind, IoFailure, RecordError, RecordErrorView, RecordWarning};
use crate::models::{clone_entries, RecordData, RecordEntry, RecordEntryView, RecordType};
use crate::paths::{join, joined};

verus! {

/// The most entries that a store keeps.
pub const MAX_CLIPBOARD_ENTRIES: usize = 200;

/// The directory, beneath the user's state directory, that holds the stores.
pub open spec fn storage_dir_name() -> Seq<char> {
    "file_clipper"@
}

/// The extension of a store file.
pub open spec fn storage_extension() -> Seq<char> {
    ".toml"@
}

/// What is kept of `entries` when they are written: the front of the list,
/// up to the cap.
pub open spec fn capped(entries: Seq<RecordEntryView>) -> Seq<RecordEntryView> {
    if entries.len() > MAX_CLIPBOARD_ENTRIES {
        entries.take(MAX_CLIPBOARD_ENTRIES as int)
    } else {
        entries
    }
}

/// The entries without those that carry `id`, in their old order.
pub open spec fn without_id(entries: Seq<RecordEntryView>, id: u128) -> Seq<RecordEntryView>
    decreases entries.len(),
{
    if entries.len() == 0 {
        entries
    } else if entries.last().id == id {
        without_id(entries.drop_last(), id)
    } else {
        without_id(entries.drop_last(), id).push(entries.last())
    }
}

/// Whether some entry carries `id`.
pub open spec fn has_id(entries: Seq<RecordEntryView>, id: u128) -> bool {
    exists|i: int| 0 <= i < entries.len() && (#[trigger] entries[i]).id == id
}

/// Both stores. `None` stands for a store that has no readable file.
#[derive(Debug)]
pub struct RecordStore {
    pub clipboard: Option<Vec<RecordEntry>>,
    pub history: Option<Vec<RecordEntry>>,
    /// Set by every write of the clipboard.
    pub clipboard_written: bool,
    /// Set by every write of the history.
    pub history_written: bool,
}

/// What a `RecordStore` holds, its text as sequences of characters.
pub struct RecordStoreView {
    pub clipboard: Option<Seq<RecordEntryView>>,
    pub history: Option<Seq<RecordEntryView>>,
    pub clipboard_written: bool,
    pub history_written: bool,
}

impl View for RecordStore {
    type V = RecordStoreView;

    open spec fn view(&self) -> RecordStoreView {
        RecordStoreView {
            clipboard: self.clipboard.deep_view(),
            history: self.history.deep_view(),
            clipboard_written: self.clipboard_written,
            history_written: self.history_written,
        }
    }
}

impl RecordStoreView {
    /// The view of a store for which no file exists and nothing was written.
    pub open spec fn absent() -> Self {
        RecordStoreView {
            clipboard: None,
            history: None,
            clipboard_written: false,
            history_written: false,
        }
    }

    /// What a read of the store `mode` returns.
    pub open spec fn stored(self, mode: RecordType) -> Option<Seq<RecordEntryView>> {
        match mode {
            RecordType::Clipboard => self.clipboard,
            RecordType::History => self.history,
        }
    }

    /// The entries of the store `mode`; none where it has no readable file.
    pub open spec fn entries(self, mode: RecordType) -> Seq<RecordEntryView> {
        match self.stored(mode) {
            Some(entries) => entries,
            None => Seq::empty(),
        }
    }

    /// The store after `entries` were written to `mode`.
    pub open spec fn written(self, mode: RecordType, entries: Seq<RecordEntryView>) -> Self {
        match mode {
            RecordType::Clipboard => RecordStoreView {
                clipboard: Some(capped(entries)),
                clipboard_written: true,
                ..self
            },
            RecordType::History => RecordStoreView {
                history: Some(capped(entries)),
                history_written: true,
                ..self
            },
        }
    }
}

impl RecordStore {
    /// A store for which no file exists yet.
    pub fn new() -> (store: Self)
        ensures
            store@ == RecordStoreView::absent(),
    {
        RecordStore {
            clipboard: None,
            history: None,
            clipboard_written: false,
            history_written: false,
        }
    }

    /// A store as loaded from the two files.
    pub fn loaded(clipboard: Option<Vec<RecordEntry>>, history: Option<Vec<RecordEntry>>) -> (store:
        Self)
        ensures
            store@ == (RecordStoreView {
                clipboard: clipboard.deep_view(),
                history: history.deep_view(),
                clipboard_written: false,
                history_written: false,
            }),
    {
        RecordStore { clipboard, history, clipboard_written: false, history_written: false }
    }
}

/// Reading a store gives back what was last written to it, in the same
/// order, as long as that was no more than the cap; and a write to one store
/// leaves the other as it was.
pub proof fn lemma_read_after_write(
    store: RecordStoreView,
    mode: RecordType,
    entries: Seq<RecordEntryView>,
)
    requires
        entries.len() <= MAX_CLIPBOARD_ENTRIES,
    ensures
        store.written(mode, entries).stored(mode) == Some(entries),
        store.written(mode, entries).entries(mode) == entries,
        mode == RecordType::Clipboard ==> store.written(mode, entries).history == store.history,
        mode == RecordType::History ==> store.written(mode, entries).clipboard == store.clipboard,
{
}

/// A write of more entries than the cap keeps exactly as many as the cap,
/// and they are the front of what was written, in the same order.
pub proof fn lemma_write_keeps_front(
    store: RecordStoreView,
    mode: RecordType,
    entries: Seq<RecordEntryView>,
)
    requires
        entries.len() > MAX_CLIPBOARD_ENTRIES,
    ensures
        store.written(mode, entries).entries(mode).len() == MAX_CLIPBOARD_ENTRIES,
        forall|i: int|
            0 <= i < MAX_CLIPBOARD_ENTRIES ==> store.written(mode, entries).entries(mode)[i]
                == entries[i],
{
}

/// Taking out an identifier that no entry carries takes nothing out.
pub proof fn lemma_without_absent_id(entries: Seq<RecordEntryView>, id: u128)
    requires
        !has_id(entries, id),
    ensures
        without_id(entries, id) == entries,
    decreases entries.len(),
{
    if entries.len() > 0 {
        let front = entries.drop_last();
        assert(entries.last() == entries[entries.len() - 1]);
        if has_id(front, id) {
            let j = choose|j: int| 0 <= j < front.len() && (#[trigger] front[j]).id == id;
            assert(entries[j].id == id);
        }
        lemma_without_absent_id(front, id);
        assert(front.push(entries.last()) =~= entries);
    }
}

/// After an identifier was taken out, no entry carries it, and every entry
/// that is left was there before.
pub proof fn lemma_without_id_removes(entries: Seq<RecordEntryView>, id: u128)
    ensures
        !has_id(without_id(entries, id), id),
        without_id(entries, id).len() <= entries.len(),
        forall|i: int|
            0 <= i < without_id(entries, id).len() ==> entries.contains(
                #[trigger] without_id(entries, id)[i],
            ),
    decreases entries.len(),
{
    if entries.len() > 0 {
        let front = entries.drop_last();
        lemma_without_id_removes(front, id);
        let kept = without_id(entries, id);
        assert forall|i: int| 0 <= i < kept.len() implies entries.contains(#[trigger] kept[i]) by {
            if i < without_id(front, id).len() {
                let x = without_id(front, id)[i];
                assert(front.contains(x));
                let j = choose|j: int| 0 <= j < front.len() && front[j] == x;
                assert(entries[j] == x);
            } else {
                assert(kept[i] == entries[entries.len() - 1]);
            }
        }
        if has_id(kept, id) {
            let j = choose|j: int| 0 <= j < kept.len() && (#[trigger] kept[j]).id == id;
            if j < without_id(front, id).len() {
                assert(without_id(front, id)[j].id == id);
            }
        }
    }
}

/// What reading a store file amounts to for the store in memory.
///
/// A file that is not there gives a store without entries to read. So does a
/// file whose content cannot be parsed: that is no reason to stop, and the
/// failure is handed back beside the result so that it can be logged. Any
/// other failure to read the file is an error.
pub fn salvage(read: Result<Option<RecordData>, RecordError>) -> (result: Result<
    (Option<Vec<RecordEntry>>, Option<RecordError>),
    RecordError,
>)
    ensures
        match read {
            Ok(Some(data)) => {
                &&& result is Ok
                &&& result->Ok_0.0.deep_view() == Some(data.entries.deep_view())
                &&& result->Ok_0.1 is None
            },
            Ok(None) => result is Ok && result->Ok_0.0 is None && result->Ok_0.1 is None,
            Err(error) => if error is DeserializeRecordFile {
                &&& result is Ok
                &&& result->Ok_0.0 is None
                &&& result->Ok_0.1 is Some
                &&& result->Ok_0.1->Some_0@ == error@
            } else {
                result is Err && result->Err_0@ == error@
            },
        },
{
    match read {
        Ok(Some(data)) => Ok((Some(data.entries), None)),
        Ok(None) => Ok((None, None)),
        Err(error) => match error {
            RecordError::DeserializeRecordFile { path, source } => Ok(
                (None, Some(RecordError::DeserializeRecordFile { path, source })),
            ),
            other => Err(other),
        },
    }
}

/// Reads one store.
pub fn read_records(store: &RecordStore, record_type: RecordType) -> (entries: Option<
    Vec<RecordEntry>,
>)
    ensures
        entries.deep_view() == store@.stored(record_type),
{
    let slot: &Option<Vec<RecordEntry>> = match record_type {
        RecordType::Clipboard => &store.clipboard,
        RecordType::History => &store.history,
    };
    match slot {
        Some(entries) => Some(clone_entries(entries)),
        None => None,
    }
}

/// Writes `entries` to one store, keeping no more than the cap.
pub fn write_records(store: &mut RecordStore, entries: &[RecordEntry], record_type: RecordType)
    ensures
        final(store)@ == old(store)@.written(record_type, entries.deep_view()),
{
    let mut kept: Vec<RecordEntry> = Vec::new();
    let limit: usize = if entries.len() > MAX_CLIPBOARD_ENTRIES {
        MAX_CLIPBOARD_ENTRIES
    } else {
        entries.len()
    };
    let mut i: usize = 0;
    while i < limit
        invariant
            i <= limit <= entries.len(),
            kept.deep_view() == entries.deep_view().take(i as int),
        decreases limit - i,
    {
        kept.push(entries[i].clone());
        assert(kept.deep_view() =~= entries.deep_view().take(i as int).push(entries[i as int]@));
        assert(entries.deep_view().take(i + 1) =~= entries.deep_view().take(i as int).push(
            entries[i as int]@,
        ));
        i += 1;
    }
    assert(kept.deep_view() =~= capped(entries.deep_view()));
    match record_type {
        RecordType::Clipboard => {
            store.clipboard = Some(kept);
            store.clipboard_written = true;
        },
        RecordType::History => {
            store.history = Some(kept);
            store.history_written = true;
        },
    }
}

/// The entries of one store; none where it has no readable file.
pub fn read_entries(store: &RecordStore, mode: &RecordType) -> (entries: Vec<RecordEntry>)
    ensures
        entries.deep_view() == store@.entries(*mode),
{
    match read_records(store, *mode) {
        Some(entries) => entries,
        None => {
            let entries: Vec<RecordEntry> = Vec::new();
            assert(entries.deep_view() =~= Seq::<RecordEntryView>::empty());
            entries
        },
    }
}

/// Reads the clipboard.
pub fn read_clipboard(store: &RecordStore) -> (entries: Option<Vec<RecordEntry>>)
    ensures
        entries.deep_view() == store@.clipboard,
{
    read_records(store, RecordType::Clipboard)
}

/// Reads the history.
pub fn read_history(store: &RecordStore) -> (entries: Option<Vec<RecordEntry>>)
    ensures
        entries.deep_view() == store@.history,
{
    read_records(store, RecordType::History)
}

/// Writes the clipboard: `entries` up to the cap replace what it held.
pub fn write_clipboard(store: &mut RecordStore, entries: &[RecordEntry])
    ensures
        final(store)@ == old(store)@.written(RecordType::Clipboard, entries.deep_view()),
{
    write_records(store, entries, RecordType::Clipboard)
}

/// Writes the history: `entries` up to the cap replace what it held.
pub fn write_history(store: &mut RecordStore, entries: &[RecordEntry])
    ensures
        final(store)@ == old(store)@.written(RecordType::History, entries.deep_view()),
{
    write_records(store, entries, RecordType::History)
}

/// Takes the entries that carry `id` out of the clipboard.
///
/// A clipboard that cannot be read, and an `id` that no entry carries, each
/// give one warning and leave the store as it was, unwritten.
pub fn handle_remove(store: &mut RecordStore, id: u128) -> (warnings: Vec<AppWarning>)
    ensures
        match old(store)@.clipboard {
            None => {
                &&& warnings.deep_view() == seq![
                    AppWarningView::Record(RecordWarning::ClipboardUnreadable),
                ]
                &&& *final(store) == *old(store)
            },
            Some(entries) => if has_id(entries, id) {
                &&& warnings.deep_view() == Seq::<AppWarningView>::empty()
                &&& final(store)@ == old(store)@.written(
                    RecordType::Clipboard,
                    without_id(entries, id),
                )
            } else {
                &&& warnings.deep_view() == seq![
                    AppWarningView::Record(RecordWarning::EntryNotFound),
                ]
                &&& *final(store) == *old(store)
            },
        },
{
    let mut warnings: Vec<AppWarning> = Vec::new();
    let mut kept: Vec<RecordEntry> = Vec::new();
    let mut found: bool = false;
    match &store.clipboard {
        None => {
            warnings.push(AppWarning::Record(RecordWarning::ClipboardUnreadable));
            assert(warnings.deep_view() =~= seq![
                AppWarningView::Record(RecordWarning::ClipboardUnreadable),
            ]);
            return warnings;
        },
        Some(entries) => {
            let ghost all = entries.deep_view();
            let mut i: usize = 0;
            assert(all.take(0) =~= Seq::<RecordEntryView>::empty());
            while i < entries.len()
                invariant
                    i <= entries.len(),
                    all == entries.deep_view(),
                    kept.deep_view() == without_id(all.take(i as int), id),
                    found == has_id(all.take(i as int), id),
                decreases entries.len() - i,
            {
                let ghost before = all.take(i as int);
                let ghost after = all.take(i + 1);
                proof {
                    assert(after.drop_last() =~= before);
                    assert(after.last() == entries[i as int]@);
                    if has_id(before, id) {
                        let j = choose|j: int| 0 <= j < before.len() && (#[trigger] before[j]).id == id;
                        assert(after[j].id == id);
                    }
                    if has_id(after, id) && entries[i as int].id != id {
                        let j = choose|j: int| 0 <= j < after.len() && (#[trigger] after[j]).id == id;
                        assert(before[j].id == id);
                    }
                    if entries[i as int].id == id {
                        assert(after[i as int].id == id);
                    }
                }
                if entries[i].id != id {
                    kept.push(entries[i].clone());
                    assert(kept.deep_view() =~= without_id(before, id).push(entries[i as int]@));
                } else {
                    found = true;
                }
                i += 1;
            }
            assert(all.take(entries.len() as int) =~= all);
        },
    }
    if found {
        write_clipboard(store, kept.as_slice());
    } else {
        warnings.push(AppWarning::Record(RecordWarning::EntryNotFound));
        assert(warnings.deep_view() =~= seq![AppWarningView::Record(RecordWarning::EntryNotFound)]);
    }
    warnings
}

/// Where the stores are kept beneath `state_dir`.
pub open spec fn storage_dir(state_dir: Seq<char>) -> Seq<char> {
    joined(state_dir, storage_dir_name())
}

/// The file of the store `record_type` beneath `state_dir`.
pub open spec fn storage_path(state_dir: Seq<char>, record_type: RecordType) -> Seq<char> {
    joined(storage_dir(state_dir), record_type.name() + storage_extension())
}

/// The directory that holds the stores; an error where the user has no state
/// directory.
pub fn get_storage_dir(state_dir: Option<&str>) -> (dir: Result<String, RecordError>)
    ensures
        match state_dir {
            Some(base) => dir is Ok && dir->Ok_0@ == storage_dir(base@),
            None => dir is Err && dir->Err_0@ == RecordErrorView::GetStateDir,
        },
{
    match state_dir {
        Some(base) => Ok(join(base, "file_clipper")),
        None => Err(RecordError::GetStateDir),
    }
}

/// The file of one store; an error where the user has no state directory.
pub fn get_storage_path(state_dir: Option<&str>, record_type: RecordType) -> (path: Result<
    String,
    RecordError,
>)
    ensures
        match state_dir {
            Some(base) => path is Ok && path->Ok_0@ == storage_path(base@, record_type),
            None => path is Err && path->Err_0@ == RecordErrorView::GetStateDir,
        },
{
    match get_storage_dir(state_dir) {
        Ok(dir) => {
            let mut file: String = record_type.to_string();
            file.append(".toml");
            Ok(join(dir.as_str(), file.as_str()))
        },
        Err(error) => Err(error),
    }
}

/// What the removal of `path` amounts to: it is reported as deleted when it
/// was removed and when it was not there to begin with, and every other
/// failure is an error.
pub open spec fn removal_result(path: Seq<char>, removal: Result<(), IoFailure>) -> Result<
    AppInfoView,
    RecordErrorView,
> {
    match removal {
        Ok(_) => Ok(AppInfoView::Clear { path }),
        Err(failure) => if failure.kind == FailureKind::NotFound {
            Ok(AppInfoView::Clear { path })
        } else {
            Err(RecordErrorView::ClearRecords { path, source: failure.detail@ })
        },
    }
}

/// Judges one removal.
pub fn cleared(path: String, removal: Result<(), IoFailure>) -> (result: Result<
    AppInfo,
    RecordError,
>)
    ensures
        match removal_result(path@, removal) {
            Ok(info) => result is Ok && result->Ok_0@ == info,
            Err(error) => result is Err && result->Err_0@ == error,
        },
{
    match removal {
        Ok(_) => Ok(AppInfo::Clear { path }),
        Err(failure) => {
            if failure.kind == FailureKind::NotFound {
                Ok(AppInfo::Clear { path })
            } else {
                Err(RecordError::ClearRecords { path, source: failure.detail })
            }
        },
    }
}

/// What is removed when the records are cleared, in this order: the
/// clipboard file, the history file, and the directory that held them.
pub open spec fn clear_targets_of(state_dir: Seq<char>) -> Seq<Seq<char>> {
    seq![
        storage_path(state_dir, RecordType::Clipboard),
        storage_path(state_dir, RecordType::History),
        storage_dir(state_dir),
    ]
}

/// The paths to remove in order to clear the records.
pub fn clear_targets(state_dir: Option<&str>) -> (targets: Result<Vec<String>, RecordError>)
    ensures
        match state_dir {
            Some(base) => targets is Ok && targets->Ok_0.deep_view() == clear_targets_of(base@),
            None => targets is Err && targets->Err_0@ == RecordErrorView::GetStateDir,
        },
{
    let clipboard: String = match get_storage_path(state_dir, RecordType::Clipboard) {
        Ok(path) => path,
        Err(error) => {
            return Err(error);
        },
    };
    let history: String = match get_storage_path(state_dir, RecordType::History) {
        Ok(path) => path,
        Err(error) => {
            return Err(error);
        },
    };
    let dir: String = match get_storage_dir(state_dir) {
        Ok(path) => path,
        Err(error) => {
            return Err(error);
        },
    };
    let mut targets: Vec<String> = Vec::new();
    targets.push(clipboard);
    targets.push(history);
    targets.push(dir);
    assert(targets.deep_view() =~= clear_targets_of(state_dir->Some_0@));
    Ok(targets)
}

/// The outcome of clearing after the first `n` removals were judged: the
/// messages so far, or the first error.
pub open spec fn clear_progress(
    targets: Seq<Seq<char>>,
    removals: Seq<Result<(), IoFailure>>,
    n: nat,
) -> Result<Seq<AppInfoView>, RecordErrorView>
    decreases n,
{
    if n == 0 {
        Ok(Seq::empty())
    } else {
        match clear_progress(targets, removals, (n - 1) as nat) {
            Err(error) => Err(error),
            Ok(infos) => match removal_result(targets[n - 1], removals[n - 1]) {
                Ok(info) => Ok(infos.push(info)),
                Err(error) => Err(error),
            },
        }
    }
}

/// How many removals count: one for each target, as far as outcomes were
/// handed in.
pub open spec fn clear_steps(removals: Seq<Result<(), IoFailure>>) -> nat {
    if removals.len() < 3 {
        removals.len()
    } else {
        3
    }
}

/// Clears the records, given how each removal went: `removals[k]` is the
/// outcome for the `k`-th of the paths that `clear_targets` names.
///
/// The store in memory is emptied when every removal counted. The first
/// removal that failed for another reason than a missing path is the error,
/// and the store in memory is then left as it was.
pub fn clear_records(
    store: &mut RecordStore,
    state_dir: Option<&str>,
    removals: Vec<Result<(), IoFailure>>,
) -> (result: Result<Vec<AppInfo>, AppError>)
    ensures
        match state_dir {
            None => {
                &&& result is Err
                &&& result->Err_0@ == crate::errors::AppErrorView::Record(
                    RecordErrorView::GetStateDir,
                )
                &&& *final(store) == *old(store)
            },
            Some(base) => match clear_progress(
                clear_targets_of(base@),
                removals@,
                clear_steps(removals@),
            ) {
                Ok(infos) => {
                    &&& result is Ok
                    &&& result->Ok_0.deep_view() == infos
                    &&& final(store)@ == RecordStoreView::absent()
                },
                Err(error) => {
                    &&& result is Err
                    &&& result->Err_0@ == crate::errors::AppErrorView::Record(error)
                    &&& *final(store) == *old(store)
                },
            },
        },
{
    let targets: Vec<String> = match clear_targets(state_dir) {
        Ok(targets) => targets,
        Err(error) => {
            return Err(AppError::Record(error));
        },
    };
    let ghost paths = targets.deep_view();
    assert(paths.len() == 3);
    let steps: usize = if removals.len() < 3 {
        removals.len()
    } else {
        3
    };
    let mut infos: Vec<AppInfo> = Vec::new();
    let mut i: usize = 0;
    assert(infos.deep_view() =~= Seq::<AppInfoView>::empty());
    while i < steps
        invariant
            i <= steps,
            steps <= removals.len(),
            steps <= targets.len(),
            paths == targets.deep_view(),
            state_dir is Some,
            steps == clear_steps(removals@),
            paths == clear_targets_of(state_dir->Some_0@),
            *store == *old(store),
            clear_progress(paths, removals@, i as nat) == Ok::<Seq<AppInfoView>, RecordErrorView>(
                infos.deep_view(),
            ),
        decreases steps - i,
    {
        let ghost before = infos.deep_view();
        assert(paths[i as int] == targets[i as int]@);
        let removal: Result<(), IoFailure> = match &removals[i] {
            Ok(_) => Ok(()),
            Err(failure) => Err(failure.clone()),
        };
        match cleared(targets[i].clone(), removal) {
            Ok(info) => {
                infos.push(info);
                assert(infos.deep_view() =~= before.push(info@));
            },
            Err(error) => {
                proof {
                    assert(removal == removals@[i as int]);
                    assert(removal_result(paths[i as int], removals@[i as int]) == Err::<
                        AppInfoView,
                        RecordErrorView,
                    >(error@));
                    assert(clear_progress(paths, removals@, (i + 1) as nat) == Err::<
                        Seq<AppInfoView>,
                        RecordErrorView,
                    >(error@));
                    lemma_clear_error_stays(paths, removals@, (i + 1) as nat, steps as nat);
                }
                return Err(AppError::Record(error));
            },
        }
        i += 1;
    }
    store.clipboard = None;
    store.history = None;
    store.clipboard_written = false;
    store.history_written = false;
    Ok(infos)
}

/// Once a removal has failed, the error is the outcome however many more
/// removals are counted.
proof fn lemma_clear_error_stays(
    targets: Seq<Seq<char>>,
    removals: Seq<Result<(), IoFailure>>,
    n: nat,
    m: nat,
)
    requires
        n <= m,
        clear_progress(targets, removals, n) is Err,
    ensures
        clear_progress(targets, removals, m) == clear_progress(targets, removals, n),
    decreases m,
{
    if n < m {
        lemma_clear_error_stays(targets, removals, n, (m - 1) as nat);
    }
}

} // verus!
