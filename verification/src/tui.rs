//! The interactive selection session.
//!
//! A session shows the entries of one store and lets the user move a
//! cursor, mark entries, remove an entry and ask for a paste. It is a state
//! machine: each key press is turned into a command, and each command takes
//! the session from one state to the next. Drawing the session and reading
//! keys is left to whoever owns the terminal.

use vstd::prelude::*;
use crate::errors::{AppError, AppInfo, AppInfoView, AppWarning, AppWarningView};
use crate::files::{probe_views, ProbeResult, ProbeResultView};
use crate::models::{PasteContent, PasteContentView, RecordEntry, RecordEntryView, RecordType};
use crate::records::{handle_remove, has_id, read_entries, without_id, RecordStore, RecordStoreView};

verus! {

/// The number of rows that the session occupies on the terminal; also the
/// length of a full page when the cursor moves by pages.
pub const HEIGHT: u16 = 20;

/// How long, in milliseconds, the session waits for a key before it draws
/// itself again.
pub const POLL_INTERVAL: u64 = 100;

/// The keys that the session tells apart.
#[derive(Clone, Copy, Debug, PartialEq, Eq, Structural)]
pub enum KeyCode {
    Char(char),
    Left,
    Right,
    Up,
    Down,
    Enter,
    /// Any other key.
    Other,
}

/// One key press.
#[derive(Clone, Copy, Debug, PartialEq, Eq, Structural)]
pub struct KeyEvent {
    pub code: KeyCode,
    /// Whether the control key, and no other modifier, was held.
    pub control: bool,
}

/// What a key press asks the session to do.
#[derive(Clone, Copy, Debug, PartialEq, Eq, Structural)]
pub enum Command {
    Mark,
    MarkAll,
    /// Move the cursor down by so many rows.
    Next(u16),
    /// Move the cursor up by so many rows.
    Previous(u16),
    Top,
    Bottom,
    Remove,
    Paste,
    Exit,
    Nothing,
}

/// The command bound to a key press. Where a key means one thing with the
/// control key and another without, the meaning with it comes first.
pub open spec fn command_for(key: KeyEvent) -> Command {
    match key.code {
        KeyCode::Left | KeyCode::Right => Command::Mark,
        KeyCode::Down => Command::Next(1),
        KeyCode::Up => Command::Previous(1),
        KeyCode::Enter => Command::Paste,
        KeyCode::Other => Command::Nothing,
        KeyCode::Char(c) => if c == 'h' || c == 'l' || c == ' ' {
            Command::Mark
        } else if c == 'a' {
            Command::MarkAll
        } else if c == 'j' {
            Command::Next(1)
        } else if c == 'k' {
            Command::Previous(1)
        } else if c == 'd' && key.control {
            Command::Next((HEIGHT / 2) as u16)
        } else if c == 'u' && key.control {
            Command::Previous((HEIGHT / 2) as u16)
        } else if c == 'f' && key.control {
            Command::Next(HEIGHT)
        } else if c == 'b' && key.control {
            Command::Previous(HEIGHT)
        } else if c == 'g' {
            Command::Top
        } else if c == 'G' {
            Command::Bottom
        } else if c == 'x' || c == 'd' {
            Command::Remove
        } else if c == 'p' {
            Command::Paste
        } else if c == 'q' || (c == 'c' && key.control) {
            Command::Exit
        } else {
            Command::Nothing
        },
    }
}

impl KeyEvent {
    /// The command bound to this key press.
    pub fn command(&self) -> (command: Command)
        ensures
            command == command_for(*self),
    {
        match self.code {
            KeyCode::Left | KeyCode::Right => Command::Mark,
            KeyCode::Down => Command::Next(1),
            KeyCode::Up => Command::Previous(1),
            KeyCode::Enter => Command::Paste,
            KeyCode::Other => Command::Nothing,
            KeyCode::Char(c) => {
                if c == 'h' || c == 'l' || c == ' ' {
                    Command::Mark
                } else if c == 'a' {
                    Command::MarkAll
                } else if c == 'j' {
                    Command::Next(1)
                } else if c == 'k' {
                    Command::Previous(1)
                } else if c == 'd' && self.control {
                    Command::Next(HEIGHT / 2)
                } else if c == 'u' && self.control {
                    Command::Previous(HEIGHT / 2)
                } else if c == 'f' && self.control {
                    Command::Next(HEIGHT)
                } else if c == 'b' && self.control {
                    Command::Previous(HEIGHT)
                } else if c == 'g' {
                    Command::Top
                } else if c == 'G' {
                    Command::Bottom
                } else if c == 'x' || c == 'd' {
                    Command::Remove
                } else if c == 'p' {
                    Command::Paste
                } else if c == 'q' || (c == 'c' && self.control) {
                    Command::Exit
                } else {
                    Command::Nothing
                }
            },
        }
    }
}

/// Which row of the table the cursor is on.
#[derive(Clone, Copy, Debug, PartialEq, Eq, Structural)]
pub struct TableCursor {
    pub selected: Option<usize>,
}

impl TableCursor {
    /// The row the cursor is on, if it is on one.
    pub fn selected(&self) -> (row: Option<usize>)
        ensures
            row == self.selected,
    {
        self.selected
    }

    /// Puts the cursor on a row, or on none.
    pub fn select(&mut self, row: Option<usize>)
        ensures
            final(self).selected == row,
    {
        self.selected = row;
    }
}

/// What the scrollbar shows: how far down the cursor is, out of how much.
#[derive(Clone, Copy, Debug, PartialEq, Eq, Structural)]
pub struct ScrollPosition {
    pub content_length: usize,
    pub position: usize,
}

/// How a row is drawn.
#[derive(Clone, Copy, Debug, PartialEq, Eq, Structural)]
pub enum RowStyle {
    /// The entry's path cannot be probed: struck out.
    Invalid,
    /// The entry is marked: highlighted.
    Marked,
    Plain,
}

/// The flags for a list of `n` entries: the old flags by position, cut off
/// or filled up with `false`.
pub open spec fn resized(flags: Seq<bool>, n: nat) -> Seq<bool> {
    Seq::new(
        n,
        |i: int|
            if i < flags.len() {
                flags[i]
            } else {
                false
            },
    )
}

/// Whether some flag is not set.
pub open spec fn any_unset(flags: Seq<bool>) -> bool {
    exists|i: int| 0 <= i < flags.len() && !(#[trigger] flags[i])
}

/// The marked ones among the first `n` entries, in order.
pub open spec fn chosen(entries: Seq<RecordEntryView>, marked: Seq<bool>, n: nat) -> Seq<
    RecordEntryView,
>
    decreases n,
{
    if n == 0 {
        Seq::empty()
    } else if n - 1 < marked.len() && marked[n - 1] {
        chosen(entries, marked, (n - 1) as nat).push(entries[n - 1])
    } else {
        chosen(entries, marked, (n - 1) as nat)
    }
}

/// Which entries cannot be probed, given a probe for each: an entry without
/// a probe counts as one that cannot.
pub open spec fn unreachable(probes: Seq<ProbeResultView>, n: nat) -> Seq<bool> {
    Seq::new(n, |i: int| !(i < probes.len() && probes[i] is Ok))
}

/// One interactive session.
#[derive(Debug)]
pub struct Tui {
    /// The entries shown, as loaded from the store.
    pub entries: Vec<RecordEntry>,
    /// The store that the session shows.
    pub mode: RecordType,
    pub table_state: TableCursor,
    pub scroll_state: ScrollPosition,
    /// For each entry, whether its path could not be probed when the
    /// session was last drawn.
    pub invalid: Vec<bool>,
    /// For each entry, whether the user marked it.
    pub marked: Vec<bool>,
    pub should_exit: bool,
    pub warnings: Vec<AppWarning>,
    pub infos: Vec<AppInfo>,
    /// The selection to paste once the session is over, if the user asked
    /// for a paste.
    pub paste_content: Option<PasteContent>,
}

/// What a `Tui` holds, its text as sequences of characters.
pub struct TuiView {
    pub entries: Seq<RecordEntryView>,
    pub mode: RecordType,
    pub selected: Option<usize>,
    pub scroll: ScrollPosition,
    pub invalid: Seq<bool>,
    pub marked: Seq<bool>,
    pub should_exit: bool,
    pub warnings: Seq<AppWarningView>,
    pub infos: Seq<AppInfoView>,
    pub paste_content: Option<PasteContentView>,
}

impl View for Tui {
    type V = TuiView;

    open spec fn view(&self) -> TuiView {
        TuiView {
            entries: self.entries.deep_view(),
            mode: self.mode,
            selected: self.table_state.selected,
            scroll: self.scroll_state,
            invalid: self.invalid@,
            marked: self.marked@,
            should_exit: self.should_exit,
            warnings: self.warnings.deep_view(),
            infos: self.infos.deep_view(),
            paste_content: self.paste_content.deep_view(),
        }
    }
}

impl TuiView {
    /// The flags are sized to the entries, and the cursor, where it is on a
    /// row, is on one that exists.
    pub open spec fn well_formed(self) -> bool {
        &&& self.invalid.len() == self.entries.len()
        &&& self.marked.len() == self.entries.len()
        &&& self.selected matches Some(row) ==> row < self.entries.len()
    }

    /// The session with the cursor, and the scrollbar with it, on `row`.
    pub open spec fn at(self, row: int) -> Self {
        TuiView {
            selected: Some(row as usize),
            scroll: ScrollPosition { position: row as usize, ..self.scroll },
            ..self
        }
    }

    /// Where the cursor lands when it moves down by `rows`: that many rows
    /// further, but not beyond the last row; on the first row if it was on
    /// none.
    pub open spec fn row_below(self, rows: int) -> int {
        match self.selected {
            Some(row) => if row + rows < self.entries.len() {
                row + rows
            } else {
                self.entries.len() - 1
            },
            None => 0,
        }
    }

    /// Where the cursor lands when it moves up by `rows`: that many rows
    /// back, but not before the first row nor beyond the last; on the first
    /// row if it was on none.
    pub open spec fn row_above(self, rows: int) -> int {
        match self.selected {
            Some(row) => if row - rows < 0 {
                0
            } else if row - rows < self.entries.len() {
                row - rows
            } else {
                self.entries.len() - 1
            },
            None => 0,
        }
    }

    /// The session after the cursor moved to where `target` says. Without
    /// entries there is nowhere to move.
    pub open spec fn moved(self, target: int) -> Self {
        if self.entries.len() == 0 {
            self
        } else {
            self.at(target)
        }
    }

    /// Whether the mark of the entry under the cursor can be toggled: the
    /// cursor is on an entry that has flags and is not flagged invalid.
    pub open spec fn can_mark(self) -> bool {
        self.selected matches Some(row) && row < self.invalid.len() && row < self.marked.len()
            && !self.invalid[row as int]
    }

    /// The session after the mark under the cursor was toggled.
    pub open spec fn toggled(self) -> Self {
        if self.can_mark() {
            let row = self.selected->Some_0 as int;
            TuiView { marked: self.marked.update(row, !self.marked[row]), ..self }
        } else {
            self
        }
    }

    /// The session after "select all": every entry is marked if any was
    /// not, and none is marked otherwise.
    pub open spec fn all_toggled(self) -> Self {
        TuiView {
            marked: Seq::new(self.entries.len(), |i: int| any_unset(self.marked)),
            ..self
        }
    }

    /// The session once it is to end.
    pub open spec fn exited(self) -> Self {
        TuiView { should_exit: true, ..self }
    }

    /// The entries that a paste takes up: the marked ones, or, if none is
    /// marked, the one under the cursor.
    pub open spec fn selection(self) -> Seq<RecordEntryView> {
        let marked = chosen(self.entries, self.marked, self.entries.len());
        if marked.len() == 0 && self.selected is Some && self.selected->Some_0
            < self.entries.len() {
            seq![self.entries[self.selected->Some_0 as int]]
        } else {
            marked
        }
    }

    /// The session after a paste was asked for: the selection is set down,
    /// and the session is to end.
    pub open spec fn paste_requested(self) -> Self {
        TuiView {
            paste_content: Some(PasteContentView { entries: self.selection(), source: self.mode }),
            ..self
        }.exited()
    }

    /// The session after its entries were loaded anew: the flags keep their
    /// positions and are sized to the new list, and the cursor stays on its
    /// row unless the list has become too short for that.
    pub open spec fn reloaded(self, entries: Seq<RecordEntryView>) -> Self {
        let selected = match self.selected {
            Some(row) => if entries.len() == 0 {
                None
            } else if row < entries.len() {
                Some(row)
            } else {
                Some((entries.len() - 1) as usize)
            },
            None => None,
        };
        TuiView {
            entries,
            selected,
            scroll: ScrollPosition {
                content_length: if entries.len() == 0 {
                    0
                } else {
                    (entries.len() - 1) as usize
                },
                position: match selected {
                    Some(row) => row,
                    None => 0,
                },
            },
            invalid: resized(self.invalid, entries.len()),
            marked: resized(self.marked, entries.len()),
            ..self
        }
    }

    /// Whether the cursor is on an entry.
    pub open spec fn on_entry(self) -> bool {
        self.selected matches Some(row) && row < self.entries.len()
    }

    /// The warnings that removing the entry under the cursor gives.
    pub open spec fn removal_warnings(self, store: RecordStoreView) -> Seq<AppWarningView> {
        if !self.on_entry() {
            Seq::empty()
        } else {
            match store.clipboard {
                None => seq![
                    AppWarningView::Record(crate::errors::RecordWarning::ClipboardUnreadable),
                ],
                Some(entries) => if has_id(
                    entries,
                    self.entries[self.selected->Some_0 as int].id,
                ) {
                    Seq::empty()
                } else {
                    seq![AppWarningView::Record(crate::errors::RecordWarning::EntryNotFound)]
                },
            }
        }
    }

    /// The store after the entry under the cursor was removed from it.
    pub open spec fn store_after_removal(self, store: RecordStoreView) -> RecordStoreView {
        if self.mode == RecordType::Clipboard && self.on_entry() && store.clipboard is Some
            && has_id(store.clipboard->Some_0, self.entries[self.selected->Some_0 as int].id) {
            store.written(
                RecordType::Clipboard,
                without_id(
                    store.clipboard->Some_0,
                    self.entries[self.selected->Some_0 as int].id,
                ),
            )
        } else {
            store
        }
    }

    /// The session after "remove". On the clipboard the entry under the
    /// cursor is removed from the store and the entries are loaded anew;
    /// on the history nothing happens.
    pub open spec fn removed(self, store: RecordStoreView) -> Self {
        if self.mode == RecordType::Clipboard {
            TuiView {
                warnings: self.warnings + self.removal_warnings(store),
                ..self
            }.reloaded(self.store_after_removal(store).entries(RecordType::Clipboard))
        } else {
            self
        }
    }

    /// The session after a command.
    pub open spec fn after(self, command: Command, store: RecordStoreView) -> Self {
        match command {
            Command::Mark => self.toggled(),
            Command::MarkAll => self.all_toggled(),
            Command::Next(rows) => self.moved(self.row_below(rows as int)),
            Command::Previous(rows) => self.moved(self.row_above(rows as int)),
            Command::Top => self.moved(0),
            Command::Bottom => self.moved(self.entries.len() - 1),
            Command::Remove => self.removed(store),
            Command::Paste => self.paste_requested(),
            Command::Exit => self.exited(),
            Command::Nothing => self,
        }
    }

    /// The store after a command: only "remove" touches it.
    pub open spec fn store_after(self, command: Command, store: RecordStoreView) -> RecordStoreView {
        match command {
            Command::Remove => self.store_after_removal(store),
            _ => store,
        }
    }
}

/// A list of `n` flags, all `value`.
fn filled(value: bool, n: usize) -> (flags: Vec<bool>)
    ensures
        flags@ == Seq::new(n as nat, |i: int| value),
{
    let mut flags: Vec<bool> = Vec::new();
    let mut i: usize = 0;
    while i < n
        invariant
            i <= n,
            flags@ == Seq::new(i as nat, |j: int| value),
        decreases n - i,
    {
        flags.push(value);
        assert(flags@ =~= Seq::new((i + 1) as nat, |j: int| value));
        i += 1;
    }
    flags
}

/// The flags for a list of `n` entries.
fn resize(flags: &Vec<bool>, n: usize) -> (sized: Vec<bool>)
    ensures
        sized@ == resized(flags@, n as nat),
{
    let mut sized: Vec<bool> = Vec::new();
    let mut i: usize = 0;
    while i < n
        invariant
            i <= n,
            sized@ == resized(flags@, i as nat),
        decreases n - i,
    {
        let flag: bool = if i < flags.len() {
            flags[i]
        } else {
            false
        };
        sized.push(flag);
        assert(sized@ =~= resized(flags@, (i + 1) as nat));
        i += 1;
    }
    sized
}

impl Tui {
    /// A session on the store `mode`. It starts with the cursor on the
    /// first entry and nothing marked; one without entries is over at once.
    pub fn new(mode: RecordType, store: &RecordStore) -> (session: Self)
        ensures
            session@ == (TuiView {
                entries: store@.entries(mode),
                mode,
                selected: if store@.entries(mode).len() == 0 {
                    None
                } else {
                    Some(0usize)
                },
                scroll: ScrollPosition {
                    content_length: if store@.entries(mode).len() == 0 {
                        0
                    } else {
                        (store@.entries(mode).len() - 1) as usize
                    },
                    position: 0,
                },
                invalid: Seq::new(store@.entries(mode).len(), |i: int| false),
                marked: Seq::new(store@.entries(mode).len(), |i: int| false),
                should_exit: store@.entries(mode).len() == 0,
                warnings: Seq::empty(),
                infos: Seq::empty(),
                paste_content: None,
            }),
            session@.well_formed(),
    {
        let entries: Vec<RecordEntry> = read_entries(store, &mode);
        let n: usize = entries.len();
        let warnings: Vec<AppWarning> = Vec::new();
        let infos: Vec<AppInfo> = Vec::new();
        proof {
            assert(warnings.deep_view() =~= Seq::<AppWarningView>::empty());
            assert(infos.deep_view() =~= Seq::<AppInfoView>::empty());
        }
        Tui {
            table_state: TableCursor {
                selected: if n == 0 {
                    None
                } else {
                    Some(0)
                },
            },
            scroll_state: ScrollPosition {
                content_length: if n == 0 {
                    0
                } else {
                    n - 1
                },
                position: 0,
            },
            invalid: filled(false, n),
            marked: filled(false, n),
            should_exit: n == 0,
            entries,
            mode,
            warnings,
            infos,
            paste_content: None,
        }
    }

    /// Puts the cursor, and the scrollbar with it, on `row`.
    fn go_to(&mut self, row: usize)
        ensures
            final(self)@ == old(self)@.at(row as int),
    {
        self.table_state.selected = Some(row);
        self.scroll_state.position = row;
    }

    /// Moves the cursor down by `num_lines` rows, stopping at the last.
    pub fn next(&mut self, num_lines: u16)
        ensures
            final(self)@ == old(self)@.moved(old(self)@.row_below(num_lines as int)),
            old(self)@.well_formed() ==> final(self)@.well_formed(),
    {
        let len: usize = self.entries.len();
        if len == 0 {
            return ;
        }
        let rows: usize = num_lines as usize;
        let row: usize = match self.table_state.selected {
            Some(row) => {
                if rows < len && row < len - rows {
                    row + rows
                } else {
                    len - 1
                }
            },
            None => 0,
        };
        self.go_to(row);
    }

    /// Moves the cursor up by `num_lines` rows, stopping at the first.
    pub fn previous(&mut self, num_lines: u16)
        ensures
            final(self)@ == old(self)@.moved(old(self)@.row_above(num_lines as int)),
            old(self)@.well_formed() ==> final(self)@.well_formed(),
    {
        let len: usize = self.entries.len();
        if len == 0 {
            return ;
        }
        let rows: usize = num_lines as usize;
        let row: usize = match self.table_state.selected {
            Some(row) => {
                if row < rows {
                    0
                } else if row - rows < len {
                    row - rows
                } else {
                    len - 1
                }
            },
            None => 0,
        };
        self.go_to(row);
    }

    /// Moves the cursor to the first entry.
    pub fn top(&mut self)
        ensures
            final(self)@ == old(self)@.moved(0),
            old(self)@.well_formed() ==> final(self)@.well_formed(),
    {
        if self.entries.len() > 0 {
            self.go_to(0);
        }
    }

    /// Moves the cursor to the last entry.
    pub fn bottom(&mut self)
        ensures
            final(self)@ == old(self)@.moved(old(self)@.entries.len() - 1),
            old(self)@.well_formed() ==> final(self)@.well_formed(),
    {
        let len: usize = self.entries.len();
        if len > 0 {
            self.go_to(len - 1);
        }
    }

    /// Toggles the mark of the entry under the cursor. An entry flagged
    /// invalid cannot be marked or unmarked; every other entry keeps its
    /// mark.
    pub fn mark(&mut self)
        ensures
            final(self)@ == old(self)@.toggled(),
            final(self)@.marked.len() == old(self)@.marked.len(),
            forall|i: int|
                0 <= i < old(self)@.marked.len() && old(self)@.selected != Some(i as usize)
                    ==> final(self)@.marked[i] == old(self)@.marked[i],
            !old(self)@.can_mark() ==> final(self)@ == old(self)@,
            old(self)@.well_formed() ==> final(self)@.well_formed(),
    {
        match self.table_state.selected {
            Some(row) => {
                if row < self.invalid.len() && row < self.marked.len() && !self.invalid[row] {
                    let flipped: bool = !self.marked[row];
                    self.marked[row] = flipped;
                }
            },
            None => {},
        }
    }

    /// Marks every entry if any is unmarked, and unmarks every entry
    /// otherwise.
    pub fn mark_all(&mut self)
        ensures
            final(self)@ == old(self)@.all_toggled(),
            any_unset(old(self)@.marked) ==> forall|i: int|
                0 <= i < final(self)@.marked.len() ==> final(self)@.marked[i],
            old(self)@.well_formed() ==> final(self)@.well_formed(),
    {
        let mut unmarked: bool = false;
        let mut i: usize = 0;
        while i < self.marked.len()
            invariant
                i <= self.marked.len(),
                *self == *old(self),
                unmarked == any_unset(self.marked@.take(i as int)),
            decreases self.marked.len() - i,
        {
            proof {
                let before = self.marked@.take(i as int);
                let after = self.marked@.take(i + 1);
                if any_unset(before) {
                    let j = choose|j: int| 0 <= j < before.len() && !(#[trigger] before[j]);
                    assert(!after[j]);
                }
                if any_unset(after) && self.marked@[i as int] {
                    let j = choose|j: int| 0 <= j < after.len() && !(#[trigger] after[j]);
                    assert(!before[j]);
                }
                if !self.marked@[i as int] {
                    assert(!after[i as int]);
                }
            }
            if !self.marked[i] {
                unmarked = true;
            }
            i += 1;
        }
        assert(self.marked@.take(self.marked.len() as int) =~= self.marked@);
        self.marked = filled(unmarked, self.entries.len());
        assert(self.marked@ =~= old(self)@.all_toggled().marked);
    }

    /// The entries that a paste takes up.
    fn selection(&self) -> (picked: Vec<RecordEntry>)
        ensures
            picked.deep_view() == self@.selection(),
    {
        let mut picked: Vec<RecordEntry> = Vec::new();
        let mut i: usize = 0;
        assert(picked.deep_view() =~= Seq::<RecordEntryView>::empty());
        while i < self.entries.len()
            invariant
                i <= self.entries.len(),
                picked.deep_view() == chosen(self@.entries, self@.marked, i as nat),
            decreases self.entries.len() - i,
        {
            let ghost before = picked.deep_view();
            if i < self.marked.len() && self.marked[i] {
                picked.push(self.entries[i].clone());
                assert(picked.deep_view() =~= before.push(self.entries[i as int]@));
            }
            i += 1;
        }
        if picked.len() == 0 {
            match self.table_state.selected {
                Some(row) => {
                    if row < self.entries.len() {
                        picked.push(self.entries[row].clone());
                        assert(picked.deep_view() =~= seq![self.entries[row as int]@]);
                    }
                },
                None => {},
            }
        }
        picked
    }

    /// Sets down the selection for a paste and ends the session. The paste
    /// itself takes place once the session is over.
    pub fn paste(&mut self)
        ensures
            final(self)@ == old(self)@.paste_requested(),
            old(self)@.well_formed() ==> final(self)@.well_formed(),
    {
        let entries: Vec<RecordEntry> = self.selection();
        self.paste_content = Some(PasteContent { entries, source: self.mode });
        self.exit();
    }

    /// Ends the session.
    pub fn exit(&mut self)
        ensures
            final(self)@ == old(self)@.exited(),
            old(self)@.well_formed() ==> final(self)@.well_formed(),
    {
        self.should_exit = true;
    }

    /// Takes up a new list of entries.
    pub fn reload(&mut self, entries: Vec<RecordEntry>)
        ensures
            final(self)@ == old(self)@.reloaded(entries.deep_view()),
            final(self)@.well_formed(),
    {
        let n: usize = entries.len();
        let selected: Option<usize> = match self.table_state.selected {
            Some(row) => {
                if n == 0 {
                    None
                } else if row < n {
                    Some(row)
                } else {
                    Some(n - 1)
                }
            },
            None => None,
        };
        self.invalid = resize(&self.invalid, n);
        self.marked = resize(&self.marked, n);
        self.table_state.selected = selected;
        self.scroll_state = ScrollPosition {
            content_length: if n == 0 {
                0
            } else {
                n - 1
            },
            position: match selected {
                Some(row) => row,
                None => 0,
            },
        };
        self.entries = entries;
    }

    /// Removes the entry under the cursor from the clipboard and loads the
    /// entries anew. A session on the history removes nothing.
    pub fn remove(&mut self, store: &mut RecordStore)
        ensures
            final(self)@ == old(self)@.removed(old(store)@),
            final(store)@ == old(self)@.store_after_removal(old(store)@),
            old(self)@.mode == RecordType::History ==> *final(store) == *old(store),
            old(self)@.well_formed() ==> final(self)@.well_formed(),
    {
        if self.mode == RecordType::Clipboard {
            match self.table_state.selected {
                Some(row) => {
                    if row < self.entries.len() {
                        let ghost before = self.warnings.deep_view();
                        let mut warnings: Vec<AppWarning> = handle_remove(
                            store,
                            self.entries[row].id,
                        );
                        let ghost added = warnings.deep_view();
                        self.warnings.append(&mut warnings);
                        assert(self.warnings.deep_view() =~= before + added);
                    }
                },
                None => {},
            }
            assert(self.warnings.deep_view() =~= old(self)@.warnings + old(self)@.removal_warnings(
                old(store)@,
            ));
            let entries: Vec<RecordEntry> = read_entries(store, &RecordType::Clipboard);
            self.reload(entries);
        }
    }

    /// Carries out a command.
    pub fn apply(&mut self, command: Command, store: &mut RecordStore)
        ensures
            final(self)@ == old(self)@.after(command, old(store)@),
            final(store)@ == old(self)@.store_after(command, old(store)@),
            !(command is Remove) ==> *final(store) == *old(store),
            old(self)@.well_formed() ==> final(self)@.well_formed(),
    {
        match command {
            Command::Mark => self.mark(),
            Command::MarkAll => self.mark_all(),
            Command::Next(rows) => self.next(rows),
            Command::Previous(rows) => self.previous(rows),
            Command::Top => self.top(),
            Command::Bottom => self.bottom(),
            Command::Remove => self.remove(store),
            Command::Paste => self.paste(),
            Command::Exit => self.exit(),
            Command::Nothing => {},
        }
    }

    /// Reacts to a key press: carries out the command bound to it.
    pub fn handle_keypress(&mut self, key: KeyEvent, store: &mut RecordStore)
        ensures
            final(self)@ == old(self)@.after(command_for(key), old(store)@),
            final(store)@ == old(self)@.store_after(command_for(key), old(store)@),
            old(self)@.well_formed() ==> final(self)@.well_formed(),
    {
        self.apply(key.command(), store);
    }

    /// Takes note of which entries can still be probed. `probes[i]` is a
    /// fresh probe of the `i`-th entry; an entry without a probe counts as
    /// one that cannot be.
    pub fn refresh_validity(&mut self, probes: &Vec<ProbeResult>)
        ensures
            final(self)@ == (TuiView {
                invalid: unreachable(probe_views(probes@), old(self)@.entries.len()),
                ..old(self)@
            }),
    {
        let n: usize = self.entries.len();
        let mut invalid: Vec<bool> = Vec::new();
        let mut i: usize = 0;
        while i < n
            invariant
                i <= n,
                invalid@ == unreachable(probe_views(probes@), i as nat),
            decreases n - i,
        {
            let reachable: bool = i < probes.len() && probes[i].is_ok();
            invalid.push(!reachable);
            proof {
                if i < probes.len() {
                    assert(probe_views(probes@)[i as int] is Ok == probes[i as int] is Ok);
                }
                assert(invalid@ =~= unreachable(probe_views(probes@), (i + 1) as nat));
            }
            i += 1;
        }
        self.invalid = invalid;
    }

    /// How the row of the `index`-th entry is drawn: struck out if the
    /// entry is flagged invalid, else highlighted if it is marked.
    pub fn row_style(&self, index: usize) -> (style: RowStyle)
        ensures
            style == if index < self@.invalid.len() && self@.invalid[index as int] {
                RowStyle::Invalid
            } else if index < self@.marked.len() && self@.marked[index as int] {
                RowStyle::Marked
            } else {
                RowStyle::Plain
            },
    {
        if index < self.invalid.len() && self.invalid[index] {
            RowStyle::Invalid
        } else if index < self.marked.len() && self.marked[index] {
            RowStyle::Marked
        } else {
            RowStyle::Plain
        }
    }

    /// The text of the first column of the `index`-th row: a ticked box if
    /// the entry is marked, else an empty one.
    pub fn selected_cell(&self, index: usize) -> (text: String)
        ensures
            text@ == if index < self@.marked.len() && self@.marked[index as int] {
                "[X]"@
            } else {
                "[ ]"@
            },
    {
        if index < self.marked.len() && self.marked[index] {
            "[X]".to_owned()
        } else {
            "[ ]".to_owned()
        }
    }

    /// The title above the table.
    pub fn title(&self) -> (text: String)
        ensures
            text@ == "File Clipper - "@ + self@.mode.name(),
    {
        let mut text: String = "File Clipper - ".to_owned();
        let name: String = self.mode.to_string();
        text.append(name.as_str());
        text
    }

    /// The line of key bindings beneath the table. Entries can be removed
    /// only from the clipboard.
    pub fn helper_text(&self) -> (text: String)
        ensures
            text@ == if self@.mode == RecordType::Clipboard {
                "Navigation: j/k; Select: space; Paste: p; Remove: x; Quit: q"@
            } else {
                "Navigation: j/k; Select: space; Paste: p; Quit: q"@
            },
    {
        if self.mode == RecordType::Clipboard {
            "Navigation: j/k; Select: space; Paste: p; Remove: x; Quit: q".to_owned()
        } else {
            "Navigation: j/k; Select: space; Paste: p; Quit: q".to_owned()
        }
    }

    /// What the session hands back once it is over.
    ///
    /// `paste` is what the paste reported, where the session asked for one
    /// and it was carried out; `run` says whether drawing and reading keys
    /// went well. A failed paste is the error; else a failure of the
    /// terminal is; else the messages and warnings of the session are
    /// handed back, followed by those of the paste.
    pub fn conclude(
        self,
        run: Result<(), AppError>,
        paste: Option<Result<(Vec<AppInfo>, Vec<AppWarning>), AppError>>,
    ) -> (result: Result<(Vec<AppInfo>, Vec<AppWarning>), AppError>)
        ensures
            match paste {
                Some(Err(error)) => result is Err && result->Err_0@ == error@,
                Some(Ok(report)) => match run {
                    Err(error) => result is Err && result->Err_0@ == error@,
                    Ok(_) => {
                        &&& result is Ok
                        &&& result->Ok_0.0.deep_view() == self@.infos + report.0.deep_view()
                        &&& result->Ok_0.1.deep_view() == self@.warnings + report.1.deep_view()
                    },
                },
                None => match run {
                    Err(error) => result is Err && result->Err_0@ == error@,
                    Ok(_) => {
                        &&& result is Ok
                        &&& result->Ok_0.0.deep_view() == self@.infos
                        &&& result->Ok_0.1.deep_view() == self@.warnings
                    },
                },
            },
    {
        let Tui { infos, warnings, .. } = self;
        let mut infos: Vec<AppInfo> = infos;
        let mut warnings: Vec<AppWarning> = warnings;
        match paste {
            Some(Err(error)) => {
                return Err(error);
            },
            Some(Ok(report)) => {
                let ghost infos_before = infos.deep_view();
                let ghost warnings_before = warnings.deep_view();
                let (mut more_infos, mut more_warnings) = report;
                let ghost infos_added = more_infos.deep_view();
                let ghost warnings_added = more_warnings.deep_view();
                infos.append(&mut more_infos);
                warnings.append(&mut more_warnings);
                assert(infos.deep_view() =~= infos_before + infos_added);
                assert(warnings.deep_view() =~= warnings_before + warnings_added);
            },
            None => {},
        }
        match run {
            Err(error) => Err(error),
            Ok(_) => Ok((infos, warnings)),
        }
    }
}

} // verus!
