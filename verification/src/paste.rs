//! The paste engine.
//!
//! A paste is a session: it is begun from the stores, an optional explicit
//! selection and fresh probes of the entries in question; it then names one
//! operation on the filesystem at a time and is told how each went; at the
//! end it updates the stores in one step. The session never touches the
//! filesystem itself.

use vstd::prelude::*;
use crate::errors::{AppError, AppErrorView, AppInfo, AppInfoView, AppWarning, AppWarningView, FileError, FileErrorView, FileWarning, FileWarningView};
use crate::files::{filter_invalid_entries, probe_views, pushed_front, resolved, ProbeResult, ProbeResultView};
use crate::models::{clone_entries, Operation, PasteContent, PasteContentView, RecordEntry, RecordEntryView, RecordType};
use crate::paths::{file_name, file_name_of, join, joined};
use crate::records::{has_id, read_entries, write_clipboard, write_history, RecordStore, RecordStoreView};

verus! {

/// How one operation on the filesystem went.
#[derive(Debug, PartialEq, Eq)]
pub enum OperationOutcome {
    Success,
    /// Something is already at the destination.
    AlreadyExists,
    /// The source or the destination may not be touched.
    PermissionDenied,
    /// Any other failure; the cause.
    OtherFailure(String),
}

/// What a `OperationOutcome` holds, its text as sequences of characters.
pub enum OperationOutcomeView {
    Success,
    AlreadyExists,
    PermissionDenied,
    OtherFailure(Seq<char>),
}

impl View for OperationOutcome {
    type V = OperationOutcomeView;

    open spec fn view(&self) -> OperationOutcomeView {
        match *self {
            OperationOutcome::Success => OperationOutcomeView::Success,
            OperationOutcome::AlreadyExists => OperationOutcomeView::AlreadyExists,
            OperationOutcome::PermissionDenied => OperationOutcomeView::PermissionDenied,
            OperationOutcome::OtherFailure(cause) => OperationOutcomeView::OtherFailure(cause@),
        }
    }
}

impl Clone for OperationOutcome {
    fn clone(&self) -> (copy: Self)
        ensures
            copy == *self,
    {
        match self {
            OperationOutcome::Success => OperationOutcome::Success,
            OperationOutcome::AlreadyExists => OperationOutcome::AlreadyExists,
            OperationOutcome::PermissionDenied => OperationOutcome::PermissionDenied,
            OperationOutcome::OtherFailure(cause) => OperationOutcome::OtherFailure(cause.clone()),
        }
    }
}

/// The views of a list of outcomes.
pub open spec fn outcome_views(outcomes: Seq<OperationOutcome>) -> Seq<OperationOutcomeView> {
    outcomes.map_values(|outcome: OperationOutcome| outcome@)
}

/// One operation on the filesystem that a paste asks for.
#[derive(Debug, PartialEq, Eq)]
pub enum PasteRequest {
    /// Copy `from` into the directory `to`.
    Copy { from: String, to: String },
    /// Move `from` into the directory `to`.
    Move { from: String, to: String },
    /// Create at `link` a symbolic link that points at `target`.
    Link { target: String, link: String },
}

/// What a `PasteRequest` holds, its text as sequences of characters.
pub enum PasteRequestView {
    Copy { from: Seq<char>, to: Seq<char> },
    Move { from: Seq<char>, to: Seq<char> },
    Link { target: Seq<char>, link: Seq<char> },
}

impl View for PasteRequest {
    type V = PasteRequestView;

    open spec fn view(&self) -> PasteRequestView {
        match *self {
            PasteRequest::Copy { from, to } => PasteRequestView::Copy { from: from@, to: to@ },
            PasteRequest::Move { from, to } => PasteRequestView::Move { from: from@, to: to@ },
            PasteRequest::Link { target, link } => PasteRequestView::Link {
                target: target@,
                link: link@,
            },
        }
    }
}

impl DeepView for PasteRequest {
    type V = PasteRequestView;

    open spec fn deep_view(&self) -> PasteRequestView {
        self@
    }
}

/// The entries that a paste considers: the explicit selection where there is
/// one, else the whole clipboard.
pub open spec fn candidates(store: RecordStoreView, content: Option<PasteContentView>) -> Seq<
    RecordEntryView,
> {
    match content {
        Some(selection) => selection.entries,
        None => store.entries(RecordType::Clipboard),
    }
}

/// Whether a paste replays history: it then copies, and leaves both stores
/// alone.
pub open spec fn replays_history(content: Option<PasteContentView>) -> bool {
    content matches Some(selection) && selection.source == RecordType::History
}

/// The entries, each set to be copied.
pub open spec fn as_copies(entries: Seq<RecordEntryView>) -> Seq<RecordEntryView> {
    Seq::new(
        entries.len(),
        |i: int| RecordEntryView { operation: Operation::Copy, ..entries[i] },
    )
}

/// Whether an entry cannot be acted on because its operation needs the name
/// of its path and the path has none.
pub open spec fn blocked(entry: RecordEntryView) -> bool {
    entry.operation != Operation::Copy && file_name_of(entry.path) is None
}

/// The entry as it is recorded once pasted: a moved entry now lives in the
/// destination, under its old name.
pub open spec fn pasted_entry(entry: RecordEntryView, destination: Seq<char>) -> RecordEntryView {
    if entry.operation == Operation::Cut {
        RecordEntryView { path: joined(destination, file_name_of(entry.path)->Some_0), ..entry }
    } else {
        entry
    }
}

/// The operation that pastes an entry into `destination`.
pub open spec fn request_for(entry: RecordEntryView, destination: Seq<char>) -> PasteRequestView {
    match entry.operation {
        Operation::Copy => PasteRequestView::Copy { from: entry.path, to: destination },
        Operation::Cut => PasteRequestView::Move { from: entry.path, to: destination },
        Operation::Link => PasteRequestView::Link {
            target: entry.path,
            link: joined(destination, file_name_of(entry.path)->Some_0),
        },
    }
}

/// The error for an operation that failed for a reason other than a
/// collision.
pub open spec fn transfer_error(
    entry: RecordEntryView,
    destination: Seq<char>,
    source: Seq<char>,
) -> FileErrorView {
    match entry.operation {
        Operation::Copy => FileErrorView::Copy {
            from_path: entry.path,
            to_path: destination,
            source,
        },
        Operation::Cut => FileErrorView::Move {
            from_path: entry.path,
            to_path: destination,
            source,
        },
        Operation::Link => FileErrorView::Link {
            from_path: entry.path,
            to_path: destination,
            source,
        },
    }
}

/// The entries that carry none of the identifiers of `pasted`, in their old
/// order.
pub open spec fn without_pasted(entries: Seq<RecordEntryView>, pasted: Seq<RecordEntryView>) -> Seq<
    RecordEntryView,
>
    decreases entries.len(),
{
    if entries.len() == 0 {
        entries
    } else if has_id(pasted, entries.last().id) {
        without_pasted(entries.drop_last(), pasted)
    } else {
        without_pasted(entries.drop_last(), pasted).push(entries.last())
    }
}

/// A paste in progress.
#[derive(Debug)]
pub struct PasteSession {
    /// The directory pasted into.
    pub destination: String,
    /// Whether the stores are updated at the end; not so when history is
    /// replayed.
    pub updates_stores: bool,
    /// The entries to act on, in order.
    pub actions: Vec<RecordEntry>,
    /// How many of them have been dealt with.
    pub position: usize,
    /// The entries pasted so far, as they go into the history, oldest first.
    pub pasted: Vec<RecordEntry>,
    pub infos: Vec<AppInfo>,
    pub warnings: Vec<AppWarning>,
    /// The error that ended the paste, if one did.
    pub failure: Option<AppError>,
}

/// What a `PasteSession` holds, its text as sequences of characters.
pub struct PasteSessionView {
    pub destination: Seq<char>,
    pub updates_stores: bool,
    pub actions: Seq<RecordEntryView>,
    pub position: int,
    pub pasted: Seq<RecordEntryView>,
    pub infos: Seq<AppInfoView>,
    pub warnings: Seq<AppWarningView>,
    pub failure: Option<AppErrorView>,
}

/// The view of an optional error.
pub open spec fn failure_view(failure: Option<AppError>) -> Option<AppErrorView> {
    match failure {
        Some(error) => Some(error@),
        None => None,
    }
}

impl View for PasteSession {
    type V = PasteSessionView;

    open spec fn view(&self) -> PasteSessionView {
        PasteSessionView {
            destination: self.destination@,
            updates_stores: self.updates_stores,
            actions: self.actions.deep_view(),
            position: self.position as int,
            pasted: self.pasted.deep_view(),
            infos: self.infos.deep_view(),
            warnings: self.warnings.deep_view(),
            failure: failure_view(self.failure),
        }
    }
}

/// What a finished paste reports.
pub type PasteReport = Result<(Seq<AppInfoView>, Seq<AppWarningView>), AppErrorView>;

impl PasteSessionView {
    /// Whether an entry is still waiting to be acted on.
    pub open spec fn active(self) -> bool {
        self.failure is None && 0 <= self.position < self.actions.len()
    }

    /// The entry to act on next.
    pub open spec fn current(self) -> RecordEntryView {
        self.actions[self.position]
    }

    /// The session stopped with the given error.
    pub open spec fn failed(self, error: FileErrorView) -> Self {
        PasteSessionView { failure: Some(AppErrorView::File(error)), ..self }
    }

    /// The session once it has looked at the entry it is about to act on:
    /// an entry that cannot be acted on ends the paste before anything is
    /// done to the filesystem for it.
    pub open spec fn settled(self) -> Self {
        if self.active() && blocked(self.current()) {
            self.failed(FileErrorView::FileName { path: self.current().path })
        } else {
            self
        }
    }

    /// The operation to carry out next; none when the paste is over.
    pub open spec fn request(self) -> Option<PasteRequestView> {
        if self.active() && !blocked(self.current()) {
            Some(request_for(self.current(), self.destination))
        } else {
            None
        }
    }

    /// The session after it was told how the operation for the current
    /// entry went.
    ///
    /// On success the entry is recorded as pasted and a message is added. A
    /// collision adds a warning and leaves the entry unpasted. Either way
    /// the session moves on to the next entry. Any other failure ends the
    /// paste. A session that is over stays as it is.
    pub open spec fn advanced(self, outcome: OperationOutcomeView) -> Self {
        if !self.active() {
            self
        } else if blocked(self.current()) {
            self.failed(FileErrorView::FileName { path: self.current().path })
        } else {
            let entry = self.current();
            match outcome {
                OperationOutcomeView::Success => {
                    let done = pasted_entry(entry, self.destination);
                    PasteSessionView {
                        position: self.position + 1,
                        pasted: self.pasted.push(done),
                        infos: self.infos.push(AppInfoView::Paste { path: done.path }),
                        ..self
                    }.settled()
                },
                OperationOutcomeView::AlreadyExists => PasteSessionView {
                    position: self.position + 1,
                    warnings: self.warnings.push(
                        AppWarningView::File(FileWarningView::AlreadyExists { path: entry.path }),
                    ),
                    ..self
                }.settled(),
                OperationOutcomeView::PermissionDenied => PasteSessionView {
                    position: self.position + 1,
                    warnings: self.warnings.push(
                        AppWarningView::File(
                            FileWarningView::NoPermission {
                                path: entry.path,
                                destination: self.destination,
                            },
                        ),
                    ),
                    ..self
                }.settled(),
                OperationOutcomeView::OtherFailure(source) => self.failed(
                    transfer_error(entry, self.destination, source),
                ),
            }
        }
    }

    /// The session after it was told a run of outcomes, one after the other.
    pub open spec fn run(self, outcomes: Seq<OperationOutcomeView>) -> Self
        decreases outcomes.len(),
    {
        if outcomes.len() == 0 {
            self
        } else {
            self.run(outcomes.drop_last()).advanced(outcomes.last())
        }
    }

    /// What the paste reports when it is finished now: the error that ended
    /// it, else its messages and warnings.
    pub open spec fn report(self) -> PasteReport {
        match self.failure {
            Some(error) => Err(error),
            None => Ok((self.infos, self.warnings)),
        }
    }

    /// The stores after the paste is finished now.
    ///
    /// A paste that failed, and one that replays history, leave them as
    /// they are. Otherwise the clipboard loses the entries that were pasted
    /// and keeps every other one, and the pasted entries are pushed to the
    /// front of the history; both stores are written.
    pub open spec fn committed(self, store: RecordStoreView) -> RecordStoreView {
        if self.failure is Some || !self.updates_stores {
            store
        } else {
            store.written(
                RecordType::Clipboard,
                without_pasted(store.entries(RecordType::Clipboard), self.pasted),
            ).written(
                RecordType::History,
                pushed_front(store.entries(RecordType::History), self.pasted),
            )
        }
    }
}

/// The session at its start.
///
/// Of the candidates, those whose probe failed are set aside; the others
/// are acted on in order. When history is replayed every entry is copied,
/// whatever it was recorded with.
pub open spec fn begun(
    store: RecordStoreView,
    destination: Seq<char>,
    content: Option<PasteContentView>,
    probes: Seq<ProbeResultView>,
) -> PasteSessionView {
    let considered = candidates(store, content);
    let checked = resolved(considered, probes, considered.len());
    PasteSessionView {
        destination,
        updates_stores: !replays_history(content),
        actions: if replays_history(content) {
            as_copies(checked.valid)
        } else {
            checked.valid
        },
        position: 0,
        pasted: Seq::empty(),
        infos: Seq::empty(),
        warnings: checked.warnings,
        failure: None,
    }.settled()
}

/// Telling a session outcomes changes neither where it pastes to, nor
/// what it acts on, nor whether it updates the stores.
pub proof fn lemma_run_keeps_plan(session: PasteSessionView, outcomes: Seq<OperationOutcomeView>)
    ensures
        session.run(outcomes).destination == session.destination,
        session.run(outcomes).actions == session.actions,
        session.run(outcomes).updates_stores == session.updates_stores,
    decreases outcomes.len(),
{
    if outcomes.len() > 0 {
        lemma_run_keeps_plan(session, outcomes.drop_last());
    }
}

/// Replaying history copies every entry and leaves both stores as they
/// were, however the operations go.
pub proof fn lemma_replay_leaves_stores(
    store: RecordStoreView,
    destination: Seq<char>,
    selection: PasteContentView,
    probes: Seq<ProbeResultView>,
    outcomes: Seq<OperationOutcomeView>,
)
    requires
        selection.source == RecordType::History,
    ensures
        ({
            let session = paste_session(store, destination, Some(selection), probes, outcomes);
            &&& session.committed(store) == store
            &&& forall|i: int|
                0 <= i < session.actions.len() ==> (#[trigger] session.actions[i]).operation
                    == Operation::Copy
        }),
{
    lemma_run_keeps_plan(begun(store, destination, Some(selection), probes), outcomes);
}

/// An entry that carries none of the identifiers of `pasted` is still
/// there once the pasted entries were taken out.
pub proof fn lemma_unpasted_stays(
    entries: Seq<RecordEntryView>,
    pasted: Seq<RecordEntryView>,
    i: int,
)
    requires
        0 <= i < entries.len(),
        !has_id(pasted, entries[i].id),
    ensures
        without_pasted(entries, pasted).contains(entries[i]),
    decreases entries.len(),
{
    let front = entries.drop_last();
    if i == entries.len() - 1 {
        let kept = without_pasted(entries, pasted);
        assert(kept[kept.len() - 1] == entries[i]);
    } else {
        lemma_unpasted_stays(front, pasted, i);
        let kept = without_pasted(front, pasted);
        let j = choose|j: int| 0 <= j < kept.len() && kept[j] == front[i];
        assert(without_pasted(entries, pasted)[j] == entries[i]);
    }
}

/// Once the pasted entries were taken out, no entry that is left carries
/// the identifier of a pasted one.
pub proof fn lemma_pasted_leave(entries: Seq<RecordEntryView>, pasted: Seq<RecordEntryView>)
    ensures
        forall|i: int|
            0 <= i < without_pasted(entries, pasted).len() ==> !has_id(
                pasted,
                (#[trigger] without_pasted(entries, pasted)[i]).id,
            ),
    decreases entries.len(),
{
    if entries.len() > 0 {
        lemma_pasted_leave(entries.drop_last(), pasted);
    }
}

/// A collision, of either kind, pastes nothing: the session moves on with
/// the same entries pasted and the same messages as before, and one more
/// warning, so that the entry is still on the clipboard when the paste is
/// finished.
pub proof fn lemma_collision_pastes_nothing(
    session: PasteSessionView,
    entries: Seq<RecordEntryView>,
)
    requires
        session.active(),
        !blocked(session.current()),
    ensures
        ({
            let taken = session.advanced(OperationOutcomeView::AlreadyExists);
            let denied = session.advanced(OperationOutcomeView::PermissionDenied);
            &&& taken.pasted == session.pasted
            &&& taken.infos == session.infos
            &&& taken.position == session.position + 1
            &&& taken.warnings == session.warnings.push(
                AppWarningView::File(
                    FileWarningView::AlreadyExists { path: session.current().path },
                ),
            )
            &&& without_pasted(entries, taken.pasted) == without_pasted(entries, session.pasted)
            &&& denied.pasted == session.pasted
            &&& denied.infos == session.infos
            &&& denied.position == session.position + 1
            &&& denied.warnings == session.warnings.push(
                AppWarningView::File(
                    FileWarningView::NoPermission {
                        path: session.current().path,
                        destination: session.destination,
                    },
                ),
            )
        }),
{
}

/// A success records the entry as pasted, with the path it has from now
/// on, and adds the message for it.
pub proof fn lemma_success_pastes_entry(session: PasteSessionView)
    requires
        session.active(),
        !blocked(session.current()),
    ensures
        ({
            let done = session.advanced(OperationOutcomeView::Success);
            let entry = pasted_entry(session.current(), session.destination);
            &&& done.pasted == session.pasted.push(entry)
            &&& done.infos == session.infos.push(AppInfoView::Paste { path: entry.path })
            &&& done.warnings == session.warnings
            &&& done.position == session.position + 1
            &&& entry.id == session.current().id
            &&& session.current().operation != Operation::Cut ==> entry == session.current()
        }),
{
}

/// Any failure other than a collision ends the paste, and a paste that has
/// ended with an error leaves both stores as they were.
pub proof fn lemma_failure_leaves_stores(
    session: PasteSessionView,
    source: Seq<char>,
    more: Seq<OperationOutcomeView>,
    store: RecordStoreView,
)
    requires
        session.active(),
    ensures
        ({
            let failed = session.advanced(OperationOutcomeView::OtherFailure(source));
            &&& failed.failure is Some
            &&& failed.run(more) == failed
            &&& failed.committed(store) == store
            &&& failed.report() is Err
        }),
    decreases more.len(),
{
    if more.len() > 0 {
        lemma_failure_leaves_stores(session, source, more.drop_last(), store);
    }
}

/// A collision leaves the clipboard entry where it is.
///
/// When the clipboard holds one entry whose path can be probed, and the
/// operation for it finds the destination taken, the paste reports no
/// message and ends its warnings with one that names the entry's path; the
/// clipboard still holds the entry, and nothing is added to the history.
pub proof fn lemma_collision_keeps_entry(
    store: RecordStoreView,
    destination: Seq<char>,
    entry: RecordEntryView,
    probe: ProbeResultView,
)
    requires
        store.clipboard == Some(seq![entry]),
        probe is Ok,
        !blocked(entry),
    ensures
        ({
            let session = paste_session(
                store,
                destination,
                None,
                seq![probe],
                seq![OperationOutcomeView::AlreadyExists],
            );
            &&& session.report() is Ok
            &&& session.infos.len() == 0
            &&& session.warnings.len() > 0
            &&& session.warnings.last() == AppWarningView::File(
                FileWarningView::AlreadyExists { path: entry.path },
            )
            &&& session.committed(store).clipboard == Some(seq![entry])
            &&& session.committed(store).history == Some(
                crate::records::capped(store.entries(RecordType::History)),
            )
        }),
{
    let entries = seq![entry];
    let probes = seq![probe];
    let outcomes = seq![OperationOutcomeView::AlreadyExists];
    let start = begun(store, destination, None, probes);
    lemma_single_valid_entry(entry, probe);
    assert(start.actions == entries);
    assert(start.current() == entry);
    assert(outcomes.drop_last() =~= Seq::<OperationOutcomeView>::empty());
    assert(start.run(outcomes.drop_last()) == start);
    let session = start.run(outcomes);
    assert(session == start.advanced(OperationOutcomeView::AlreadyExists));
    assert(session.pasted =~= Seq::<RecordEntryView>::empty());
    assert(entries.drop_last() =~= Seq::<RecordEntryView>::empty());
    assert(without_pasted(entries.drop_last(), session.pasted) =~= Seq::<RecordEntryView>::empty());
    assert(without_pasted(entries, session.pasted) =~= entries);
    assert(session.pasted.reverse() + store.entries(RecordType::History) =~= store.entries(
        RecordType::History,
    ));
    assert(session.warnings =~= start.warnings.push(
        AppWarningView::File(FileWarningView::AlreadyExists { path: entry.path }),
    ));
    assert(session.infos =~= Seq::<AppInfoView>::empty());
    assert(session.failure is None);
    assert(session.updates_stores);
    assert(store.entries(RecordType::Clipboard) == entries);
}

/// Pasting a cut entry moves it from the clipboard to the history.
///
/// When the clipboard holds one entry that is to be moved, whose path can
/// be probed and has a name, and the move succeeds, the paste reports the
/// new path; the clipboard is left without the entry, and the history
/// starts with the entry at its new path, in the destination under its old
/// name.
pub proof fn lemma_cut_moves_to_history(
    store: RecordStoreView,
    destination: Seq<char>,
    entry: RecordEntryView,
    probe: ProbeResultView,
)
    requires
        store.clipboard == Some(seq![entry]),
        entry.operation == Operation::Cut,
        file_name_of(entry.path) is Some,
        probe is Ok,
    ensures
        ({
            let session = paste_session(
                store,
                destination,
                None,
                seq![probe],
                seq![OperationOutcomeView::Success],
            );
            let moved = RecordEntryView {
                path: joined(destination, file_name_of(entry.path)->Some_0),
                ..entry
            };
            let after = session.committed(store);
            &&& session.report() is Ok
            &&& session.infos == seq![AppInfoView::Paste { path: moved.path }]
            &&& after.clipboard == Some(Seq::<RecordEntryView>::empty())
            &&& !has_id(after.entries(RecordType::Clipboard), entry.id)
            &&& after.entries(RecordType::History).len() > 0
            &&& after.entries(RecordType::History)[0] == moved
        }),
{
    let entries = seq![entry];
    let probes = seq![probe];
    let outcomes = seq![OperationOutcomeView::Success];
    let start = begun(store, destination, None, probes);
    lemma_single_valid_entry(entry, probe);
    assert(start.actions == entries);
    assert(start.current() == entry);
    assert(outcomes.drop_last() =~= Seq::<OperationOutcomeView>::empty());
    assert(start.run(outcomes.drop_last()) == start);
    let session = start.run(outcomes);
    let moved = pasted_entry(entry, destination);
    assert(session == start.advanced(OperationOutcomeView::Success));
    assert(session.pasted =~= seq![moved]);
    assert(session.infos =~= seq![AppInfoView::Paste { path: moved.path }]);
    assert(session.pasted[0].id == entry.id);
    assert(has_id(session.pasted, entries.last().id));
    assert(entries.drop_last() =~= Seq::<RecordEntryView>::empty());
    assert(without_pasted(entries.drop_last(), session.pasted) =~= Seq::<
        RecordEntryView,
    >::empty());
    assert(without_pasted(entries, session.pasted) =~= Seq::<RecordEntryView>::empty());
    assert(session.failure is None);
    assert(session.updates_stores);
    assert(store.entries(RecordType::Clipboard) == entries);
    let history = pushed_front(store.entries(RecordType::History), session.pasted);
    assert(history[0] == moved);
    assert(session.committed(store).entries(RecordType::History)[0] == moved);
}

/// One entry whose probe succeeded is valid.
proof fn lemma_single_valid_entry(entry: RecordEntryView, probe: ProbeResultView)
    requires
        probe is Ok,
    ensures
        resolved(seq![entry], seq![probe], 1).valid == seq![entry],
        resolved(seq![entry], seq![probe], 1).invalid == Seq::<RecordEntryView>::empty(),
{
    let start = resolved(seq![entry], seq![probe], 0);
    assert(start.valid =~= Seq::<RecordEntryView>::empty());
    assert(seq![entry][0] == entry);
    assert(seq![probe][0] == probe);
    assert(start.valid.push(entry) =~= seq![entry]);
}

/// The entries that a paste considers, and that are to be probed before it
/// begins.
pub fn paste_candidates(store: &RecordStore, paste_content: &Option<PasteContent>) -> (entries: Vec<
    RecordEntry,
>)
    ensures
        entries.deep_view() == candidates(store@, paste_content.deep_view()),
{
    match paste_content {
        Some(selection) => {
            let entries: Vec<RecordEntry> = clone_entries(&selection.entries);
            assert(entries.deep_view() =~= selection.entries.deep_view());
            entries
        },
        None => read_entries(store, &RecordType::Clipboard),
    }
}

/// Whether some entry carries `id`.
fn carries_id(entries: &Vec<RecordEntry>, id: u128) -> (answer: bool)
    ensures
        answer == has_id(entries.deep_view(), id),
{
    let mut i: usize = 0;
    while i < entries.len()
        invariant
            i <= entries.len(),
            forall|j: int| 0 <= j < i ==> (#[trigger] entries.deep_view()[j]).id != id,
        decreases entries.len() - i,
    {
        if entries[i].id == id {
            assert(entries.deep_view()[i as int].id == id);
            return true;
        }
        i += 1;
    }
    false
}

/// The entries that carry none of the identifiers of `pasted`.
fn unpasted(entries: &Vec<RecordEntry>, pasted: &Vec<RecordEntry>) -> (kept: Vec<RecordEntry>)
    ensures
        kept.deep_view() == without_pasted(entries.deep_view(), pasted.deep_view()),
{
    let mut kept: Vec<RecordEntry> = Vec::new();
    let mut i: usize = 0;
    let ghost all = entries.deep_view();
    assert(kept.deep_view() =~= without_pasted(all.take(0), pasted.deep_view()));
    while i < entries.len()
        invariant
            i <= entries.len(),
            all == entries.deep_view(),
            kept.deep_view() == without_pasted(all.take(i as int), pasted.deep_view()),
        decreases entries.len() - i,
    {
        let ghost before = kept.deep_view();
        proof {
            assert(all.take(i + 1).drop_last() =~= all.take(i as int));
            assert(all.take(i + 1).last() == entries[i as int]@);
        }
        if !carries_id(pasted, entries[i].id) {
            kept.push(entries[i].clone());
            assert(kept.deep_view() =~= before.push(entries[i as int]@));
        }
        i += 1;
    }
    assert(all.take(entries.len() as int) =~= all);
    kept
}

/// The entries, each set to be copied.
fn copies_of(entries: &Vec<RecordEntry>) -> (copies: Vec<RecordEntry>)
    ensures
        copies.deep_view() == as_copies(entries.deep_view()),
{
    let mut copies: Vec<RecordEntry> = Vec::new();
    let mut i: usize = 0;
    let ghost all = entries.deep_view();
    assert(copies.deep_view() =~= as_copies(all.take(0)));
    while i < entries.len()
        invariant
            i <= entries.len(),
            all == entries.deep_view(),
            copies.deep_view() == as_copies(all.take(i as int)),
        decreases entries.len() - i,
    {
        let entry: &RecordEntry = &entries[i];
        let ghost before = copies.deep_view();
        let copy = RecordEntry {
            timestamp: entry.timestamp,
            size: entry.size,
            operation: Operation::Copy,
            entry_type: entry.entry_type,
            path: entry.path.clone(),
            id: entry.id,
        };
        copies.push(copy);
        proof {
            assert(all[i as int] == entry@);
            assert(copies.deep_view() =~= before.push(copy@));
            assert(before.push(copy@) =~= as_copies(all.take(i + 1)));
        }
        i += 1;
    }
    assert(all.take(entries.len() as int) =~= all);
    copies
}

impl PasteSession {
    /// Begins a paste into `destination`.
    ///
    /// `probes[i]` is a fresh probe of the `i`-th entry that
    /// `paste_candidates` names for the same store and selection; an entry
    /// without a probe counts as one whose path was not found.
    pub fn begin(
        store: &RecordStore,
        destination: String,
        paste_content: Option<PasteContent>,
        probes: &Vec<ProbeResult>,
    ) -> (session: Self)
        ensures
            session@ == begun(
                store@,
                destination@,
                paste_content.deep_view(),
                probe_views(probes@),
            ),
    {
        let considered: Vec<RecordEntry> = paste_candidates(store, &paste_content);
        let replay: bool = match &paste_content {
            Some(selection) => selection.source == RecordType::History,
            None => false,
        };
        let slice: &[RecordEntry] = considered.as_slice();
        assert(slice.deep_view() =~= considered.deep_view());
        let (valid, _, warnings) = filter_invalid_entries(slice, probes);
        let actions: Vec<RecordEntry> = if replay {
            copies_of(&valid)
        } else {
            valid
        };
        let pasted: Vec<RecordEntry> = Vec::new();
        let infos: Vec<AppInfo> = Vec::new();
        proof {
            assert(pasted.deep_view() =~= Seq::<RecordEntryView>::empty());
            assert(infos.deep_view() =~= Seq::<AppInfoView>::empty());
        }
        let mut session = PasteSession {
            destination,
            updates_stores: !replay,
            actions,
            position: 0,
            pasted,
            infos,
            warnings,
            failure: None,
        };
        session.settle();
        session
    }

    /// Looks at the entry that is about to be acted on.
    fn settle(&mut self)
        ensures
            final(self)@ == old(self)@.settled(),
    {
        if self.failure.is_none() && self.position < self.actions.len() {
            let entry: &RecordEntry = &self.actions[self.position];
            assert(self@.current() == entry@);
            if entry.operation != Operation::Copy {
                if file_name(entry.path.as_str()).is_none() {
                    self.failure = Some(
                        AppError::File(FileError::FileName { path: entry.path.clone() }),
                    );
                }
            }
        }
    }

    /// The operation to carry out next; none when the paste is over.
    pub fn next_request(&self) -> (request: Option<PasteRequest>)
        ensures
            request.deep_view() == self@.request(),
    {
        if self.failure.is_some() || self.position >= self.actions.len() {
            return None;
        }
        let entry: &RecordEntry = &self.actions[self.position];
        assert(self@.current() == entry@);
        match entry.operation {
            Operation::Copy => Some(
                PasteRequest::Copy { from: entry.path.clone(), to: self.destination.clone() },
            ),
            Operation::Cut => match file_name(entry.path.as_str()) {
                Some(_) => Some(
                    PasteRequest::Move { from: entry.path.clone(), to: self.destination.clone() },
                ),
                None => None,
            },
            Operation::Link => match file_name(entry.path.as_str()) {
                Some(name) => Some(
                    PasteRequest::Link {
                        target: entry.path.clone(),
                        link: join(self.destination.as_str(), name.as_str()),
                    },
                ),
                None => None,
            },
        }
    }

    /// Tells the session how the operation for the current entry went.
    pub fn record(&mut self, outcome: OperationOutcome)
        ensures
            final(self)@ == old(self)@.advanced(outcome@),
    {
        if self.failure.is_some() || self.position >= self.actions.len() {
            return ;
        }
        let entry: RecordEntry = self.actions[self.position].clone();
        assert(self@.current() == entry@);
        let name: Option<String> = file_name(entry.path.as_str());
        if entry.operation != Operation::Copy && name.is_none() {
            self.failure = Some(AppError::File(FileError::FileName { path: entry.path }));
            return ;
        }
        let ghost before = self@;
        match outcome {
            OperationOutcome::Success => {
                let done: RecordEntry = match (entry.operation, name) {
                    (Operation::Cut, Some(name)) => RecordEntry {
                        timestamp: entry.timestamp,
                        size: entry.size,
                        operation: entry.operation,
                        entry_type: entry.entry_type,
                        path: join(self.destination.as_str(), name.as_str()),
                        id: entry.id,
                    },
                    _ => entry,
                };
                assert(done@ == pasted_entry(before.current(), before.destination));
                self.infos.push(AppInfo::Paste { path: done.path.clone() });
                self.pasted.push(done);
                self.position = self.position + 1;
                proof {
                    assert(self.infos.deep_view() =~= before.infos.push(
                        AppInfoView::Paste { path: done@.path },
                    ));
                    assert(self.pasted.deep_view() =~= before.pasted.push(done@));
                }
                self.settle();
            },
            OperationOutcome::AlreadyExists => {
                self.warnings.push(
                    AppWarning::File(FileWarning::AlreadyExists { path: entry.path }),
                );
                self.position = self.position + 1;
                proof {
                    assert(self.warnings.deep_view() =~= before.warnings.push(
                        AppWarningView::File(
                            FileWarningView::AlreadyExists { path: before.current().path },
                        ),
                    ));
                }
                self.settle();
            },
            OperationOutcome::PermissionDenied => {
                self.warnings.push(
                    AppWarning::File(
                        FileWarning::NoPermission {
                            path: entry.path,
                            destination: self.destination.clone(),
                        },
                    ),
                );
                self.position = self.position + 1;
                proof {
                    assert(self.warnings.deep_view() =~= before.warnings.push(
                        AppWarningView::File(
                            FileWarningView::NoPermission {
                                path: before.current().path,
                                destination: before.destination,
                            },
                        ),
                    ));
                }
                self.settle();
            },
            OperationOutcome::OtherFailure(source) => {
                let to_path: String = self.destination.clone();
                let error: FileError = match entry.operation {
                    Operation::Copy => FileError::Copy { from_path: entry.path, to_path, source },
                    Operation::Cut => FileError::Move { from_path: entry.path, to_path, source },
                    Operation::Link => FileError::Link { from_path: entry.path, to_path, source },
                };
                self.failure = Some(AppError::File(error));
            },
        }
    }

    /// Ends the paste: updates the stores and hands out what there is to
    /// report.
    pub fn finish(self, store: &mut RecordStore) -> (result: Result<
        (Vec<AppInfo>, Vec<AppWarning>),
        AppError,
    >)
        ensures
            final(store)@ == self@.committed(old(store)@),
            self@.failure is Some || !self@.updates_stores ==> *final(store) == *old(store),
            match self@.report() {
                Ok(report) => {
                    &&& result is Ok
                    &&& result->Ok_0.0.deep_view() == report.0
                    &&& result->Ok_0.1.deep_view() == report.1
                },
                Err(error) => result is Err && result->Err_0@ == error,
            },
    {
        let PasteSession { updates_stores, pasted, infos, warnings, failure, .. } = self;
        match failure {
            Some(error) => {
                return Err(error);
            },
            None => {},
        }
        if updates_stores {
            let clipboard: Vec<RecordEntry> = read_entries(store, &RecordType::Clipboard);
            let history: Vec<RecordEntry> = read_entries(store, &RecordType::History);
            let remaining: Vec<RecordEntry> = unpasted(&clipboard, &pasted);
            let mut updated: Vec<RecordEntry> = Vec::new();
            let n: usize = pasted.len();
            let mut i: usize = n;
            let ghost front = pasted.deep_view().reverse();
            assert(updated.deep_view() =~= front.take(0));
            while i > 0
                invariant
                    i <= n,
                    n == pasted.len(),
                    front == pasted.deep_view().reverse(),
                    updated.deep_view() == front.take(n - i),
                decreases i,
            {
                let ghost before = updated.deep_view();
                updated.push(pasted[i - 1].clone());
                proof {
                    assert(front[n - i] == pasted[i - 1]@);
                    assert(updated.deep_view() =~= before.push(pasted[i - 1]@));
                    assert(front.take(n - i + 1) =~= front.take(n - i).push(front[n - i]));
                }
                i -= 1;
            }
            assert(front.take(n as int) =~= front);
            let mut j: usize = 0;
            while j < history.len()
                invariant
                    j <= history.len(),
                    updated.deep_view() == front + history.deep_view().take(j as int),
                decreases history.len() - j,
            {
                let ghost before = updated.deep_view();
                updated.push(history[j].clone());
                proof {
                    assert(updated.deep_view() =~= before.push(history[j as int]@));
                    assert(history.deep_view().take(j + 1) =~= history.deep_view().take(
                        j as int,
                    ).push(history[j as int]@));
                }
                j += 1;
            }
            assert(history.deep_view().take(history.len() as int) =~= history.deep_view());
            let kept: &[RecordEntry] = remaining.as_slice();
            assert(kept.deep_view() =~= remaining.deep_view());
            write_clipboard(store, kept);
            let newest_first: &[RecordEntry] = updated.as_slice();
            assert(newest_first.deep_view() =~= updated.deep_view());
            write_history(store, newest_first);
        }
        Ok((infos, warnings))
    }
}

/// What a paste into `destination` reports, and what it makes of the
/// stores, when its operations went as `outcomes` say.
pub open spec fn paste_session(
    store: RecordStoreView,
    destination: Seq<char>,
    content: Option<PasteContentView>,
    probes: Seq<ProbeResultView>,
    outcomes: Seq<OperationOutcomeView>,
) -> PasteSessionView {
    begun(store, destination, content, probes).run(outcomes)
}

/// Pastes into `destination` in one go, given how each operation on the
/// filesystem went.
///
/// `probes[i]` is a fresh probe of the `i`-th entry that `paste_candidates`
/// names. `outcomes[k]` is how the `k`-th operation went that the paste
/// asked for; outcomes beyond the end of the paste are not looked at, and
/// entries for which no outcome is left stay where they are.
pub fn handle_paste(
    store: &mut RecordStore,
    destination: String,
    paste_content: Option<PasteContent>,
    probes: &Vec<ProbeResult>,
    outcomes: &Vec<OperationOutcome>,
) -> (result: Result<(Vec<AppInfo>, Vec<AppWarning>), AppError>)
    ensures
        ({
            let session = paste_session(
                old(store)@,
                destination@,
                paste_content.deep_view(),
                probe_views(probes@),
                outcome_views(outcomes@),
            );
            &&& final(store)@ == session.committed(old(store)@)
            &&& session.failure is Some || !session.updates_stores ==> *final(store) == *old(store)
            &&& match session.report() {
                Ok(report) => {
                    &&& result is Ok
                    &&& result->Ok_0.0.deep_view() == report.0
                    &&& result->Ok_0.1.deep_view() == report.1
                },
                Err(error) => result is Err && result->Err_0@ == error,
            }
        }),
{
    let mut session: PasteSession = PasteSession::begin(store, destination, paste_content, probes);
    let ghost start = session@;
    let ghost all = outcome_views(outcomes@);
    let mut i: usize = 0;
    assert(all.take(0) =~= Seq::<OperationOutcomeView>::empty());
    while i < outcomes.len()
        invariant
            i <= outcomes.len(),
            all == outcome_views(outcomes@),
            session@ == start.run(all.take(i as int)),
        decreases outcomes.len() - i,
    {
        proof {
            assert(all.take(i + 1).drop_last() =~= all.take(i as int));
            assert(all.take(i + 1).last() == outcomes[i as int]@);
        }
        session.record(outcomes[i].clone());
        i += 1;
    }
    assert(all.take(outcomes.len() as int) =~= all);
    session.finish(store)
}

} // verus!
