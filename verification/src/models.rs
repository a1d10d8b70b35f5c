//! The data model: record entries, the operations they replay, and the
//! commands the tool understands.
//!
//! Paths are held as `String`s, timestamps as whole seconds since the Unix
//! epoch and entry identifiers as the 128-bit value of a UUID. Each type that
//! owns text has a view in which the text is a `Seq<char>`; contracts
//! throughout the crate are stated over these views.

use vstd::prelude::*;

verus! {

/// The action that an entry replays when it is pasted.
#[derive(Clone, Copy, Debug, PartialEq, Eq, Hash, Structural)]
pub enum Operation {
    Copy,
    Cut,
    Link,
}

impl Operation {
    /// The lower-case name under which the operation is shown.
    pub open spec fn name(self) -> Seq<char> {
        match self {
            Operation::Copy => "copy"@,
            Operation::Cut => "cut"@,
            Operation::Link => "link"@,
        }
    }

    pub fn to_string(&self) -> (text: String)
        ensures
            text@ == self.name(),
    {
        match self {
            Operation::Copy => "copy".to_owned(),
            Operation::Cut => "cut".to_owned(),
            Operation::Link => "link".to_owned(),
        }
    }
}

/// What kind of filesystem object an entry referred to when it was recorded.
#[derive(Clone, Copy, Debug, PartialEq, Eq, Hash, Structural)]
pub enum EntryType {
    File,
    Directory,
    Symlink,
}

impl EntryType {
    /// The name under which the type is shown.
    pub open spec fn name(self) -> Seq<char> {
        match self {
            EntryType::File => "File"@,
            EntryType::Directory => "Directory"@,
            EntryType::Symlink => "Symlink"@,
        }
    }

    pub fn to_string(&self) -> (text: String)
        ensures
            text@ == self.name(),
    {
        match self {
            EntryType::File => "File".to_owned(),
            EntryType::Directory => "Directory".to_owned(),
            EntryType::Symlink => "Symlink".to_owned(),
        }
    }
}

/// The two persisted stores.
#[derive(Clone, Copy, Debug, PartialEq, Eq, Hash, Structural)]
pub enum RecordType {
    Clipboard,
    History,
}

impl RecordType {
    /// The lower-case name of the store, also the stem of its file name.
    pub open spec fn name(self) -> Seq<char> {
        match self {
            RecordType::Clipboard => "clipboard"@,
            RecordType::History => "history"@,
        }
    }

    pub fn to_string(&self) -> (text: String)
        ensures
            text@ == self.name(),
    {
        match self {
            RecordType::Clipboard => "clipboard".to_owned(),
            RecordType::History => "history".to_owned(),
        }
    }
}

/// What a probe of a path found: its canonical form, its type, its size and
/// when it was last modified.
#[derive(Debug, PartialEq, Eq, Hash)]
pub struct Metadata {
    /// Last modification, in seconds since the Unix epoch.
    pub modified: u64,
    /// Byte length; absent for directories.
    pub size: Option<u64>,
    pub entry_type: EntryType,
    pub absolute_path: String,
}

/// What a `Metadata` holds, its text as sequences of characters.
pub struct MetadataView {
    pub modified: u64,
    pub size: Option<u64>,
    pub entry_type: EntryType,
    pub absolute_path: Seq<char>,
}

impl View for Metadata {
    type V = MetadataView;

    open spec fn view(&self) -> MetadataView {
        MetadataView {
            modified: self.modified,
            size: self.size,
            entry_type: self.entry_type,
            absolute_path: self.absolute_path@,
        }
    }
}

impl DeepView for Metadata {
    type V = MetadataView;

    open spec fn deep_view(&self) -> MetadataView {
        self@
    }
}

impl Clone for Metadata {
    fn clone(&self) -> (copy: Self)
        ensures
            copy == *self,
    {
        Metadata {
            modified: self.modified,
            size: self.size,
            entry_type: self.entry_type,
            absolute_path: self.absolute_path.clone(),
        }
    }
}

/// One persisted record: a reference to a path, a snapshot of what was there
/// and the operation to replay.
#[derive(Debug, PartialEq, Eq, Hash)]
pub struct RecordEntry {
    /// When the snapshot was taken, in seconds since the Unix epoch.
    pub timestamp: u64,
    /// Byte length at snapshot time; absent for directories.
    pub size: Option<u64>,
    pub operation: Operation,
    pub entry_type: EntryType,
    pub path: String,
    /// The 128-bit value of the entry's UUID.
    pub id: u128,
}

/// What a `RecordEntry` holds, its text as sequences of characters.
pub struct RecordEntryView {
    pub timestamp: u64,
    pub size: Option<u64>,
    pub operation: Operation,
    pub entry_type: EntryType,
    pub path: Seq<char>,
    pub id: u128,
}

impl View for RecordEntry {
    type V = RecordEntryView;

    open spec fn view(&self) -> RecordEntryView {
        RecordEntryView {
            timestamp: self.timestamp,
            size: self.size,
            operation: self.operation,
            entry_type: self.entry_type,
            path: self.path@,
            id: self.id,
        }
    }
}

impl DeepView for RecordEntry {
    type V = RecordEntryView;

    open spec fn deep_view(&self) -> RecordEntryView {
        self@
    }
}

impl Clone for RecordEntry {
    fn clone(&self) -> (copy: Self)
        ensures
            copy == *self,
    {
        RecordEntry {
            timestamp: self.timestamp,
            size: self.size,
            operation: self.operation,
            entry_type: self.entry_type,
            path: self.path.clone(),
            id: self.id,
        }
    }
}

/// Copies a list of entries.
pub fn clone_entries(entries: &Vec<RecordEntry>) -> (copy: Vec<RecordEntry>)
    ensures
        copy@ == entries@,
{
    let mut copy: Vec<RecordEntry> = Vec::new();
    for i in 0..entries.len()
        invariant
            copy@ == entries@.take(i as int),
    {
        copy.push(entries[i].clone());
        assert(entries@.take(i + 1) == entries@.take(i as int).push(entries@[i as int]));
    }
    assert(entries@.take(entries@.len() as int) == entries@);
    copy
}

/// The content of one store file.
#[derive(Debug)]
pub struct RecordData {
    pub entries: Vec<RecordEntry>,
}

impl Clone for RecordData {
    fn clone(&self) -> (copy: Self)
        ensures
            copy.entries@ == self.entries@,
    {
        RecordData { entries: clone_entries(&self.entries) }
    }
}

/// What the command line asked for.
#[derive(Debug)]
pub enum Action {
    Copy(Vec<String>),
    Cut(Vec<String>),
    Link(Vec<String>),
    Paste(String),
    Clipboard,
    History,
    /// Remove the entry with this identifier from the clipboard.
    Remove(u128),
    Clear,
}

/// An explicit set of entries to paste, and the store they were picked from.
#[derive(Debug)]
pub struct PasteContent {
    pub entries: Vec<RecordEntry>,
    pub source: RecordType,
}

/// What a `PasteContent` holds, its text as sequences of characters.
pub struct PasteContentView {
    pub entries: Seq<RecordEntryView>,
    pub source: RecordType,
}

impl View for PasteContent {
    type V = PasteContentView;

    open spec fn view(&self) -> PasteContentView {
        PasteContentView { entries: self.entries.deep_view(), source: self.source }
    }
}

impl DeepView for PasteContent {
    type V = PasteContentView;

    open spec fn deep_view(&self) -> PasteContentView {
        self@
    }
}

impl Clone for PasteContent {
    fn clone(&self) -> (copy: Self)
        ensures
            copy.entries@ == self.entries@,
            copy.source == self.source,
            copy@ == self@,
    {
        PasteContent { entries: clone_entries(&self.entries), source: self.source }
    }
}

/// How one collision at the destination is settled.
#[derive(Clone, Copy, Debug, PartialEq, Eq, Structural)]
pub enum CollisionResolution {
    Skip,
    Overwrite,
}

/// The answers a user can give when asked about a collision.
#[derive(Clone, Copy, Debug, PartialEq, Eq, Structural)]
pub enum CollisionResolutionChoice {
    Yes,
    No,
    OverwriteAll,
    SkipAll,
    Quit,
}

/// The lower-case form of a text, as `str::to_lowercase` gives it.
pub uninterp spec fn lowercased(text: Seq<char>) -> Seq<char>;

/// The lower-case form of `text`, from `str::to_lowercase`.
///
/// Not proved here: the contract only gives the result a name. It relies
/// on lower-casing being a function of the text alone, which holds because
/// the mapping is the one fixed by Unicode and involves no locale.
#[verifier::external_body]
fn to_lowercase(text: &str) -> (lower: String)
    ensures
        lower@ == lowercased(text@),
{
    text.to_lowercase()
}

impl CollisionResolutionChoice {
    /// The answer that a lower-case text stands for: one of the single
    /// letters `y`, `n`, `a`, `s` and `q`, and nothing else.
    pub open spec fn of_lowercase(text: Seq<char>) -> Option<CollisionResolutionChoice> {
        if text.len() != 1 {
            None
        } else if text[0] == 'y' {
            Some(CollisionResolutionChoice::Yes)
        } else if text[0] == 'n' {
            Some(CollisionResolutionChoice::No)
        } else if text[0] == 'a' {
            Some(CollisionResolutionChoice::OverwriteAll)
        } else if text[0] == 's' {
            Some(CollisionResolutionChoice::SkipAll)
        } else if text[0] == 'q' {
            Some(CollisionResolutionChoice::Quit)
        } else {
            None
        }
    }

    /// Reads an answer that is already in lower case.
    pub fn from_lowercase(text: &str) -> (choice: Option<CollisionResolutionChoice>)
        ensures
            choice == Self::of_lowercase(text@),
    {
        if text.unicode_len() != 1 {
            return None;
        }
        let letter: char = text.get_char(0);
        if letter == 'y' {
            Some(CollisionResolutionChoice::Yes)
        } else if letter == 'n' {
            Some(CollisionResolutionChoice::No)
        } else if letter == 'a' {
            Some(CollisionResolutionChoice::OverwriteAll)
        } else if letter == 's' {
            Some(CollisionResolutionChoice::SkipAll)
        } else if letter == 'q' {
            Some(CollisionResolutionChoice::Quit)
        } else {
            None
        }
    }

    /// Reads an answer, in either case.
    pub fn from_str(input: &str) -> (choice: Option<CollisionResolutionChoice>)
        ensures
            choice == Self::of_lowercase(lowercased(input@)),
    {
        let lower: String = to_lowercase(input);
        Self::from_lowercase(lower.as_str())
    }
}

} // verus!
