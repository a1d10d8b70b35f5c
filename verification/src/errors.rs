//! Errors, warnings and informational messages.
//!
//! An error stops the command. A warning is collected and reported, and the
//! command still completes. The underlying cause of a failure is kept as the
//! text that the operating system or a library gave for it.

use vstd::prelude::*;

verus! {

/// The kinds of failure that the engine tells apart when an operation on the
/// filesystem does not succeed.
#[derive(Clone, Copy, Debug, PartialEq, Eq, Structural)]
pub enum FailureKind {
    NotFound,
    AlreadyExists,
    PermissionDenied,
    Other,
}

/// A failed operation on the filesystem: its kind, and the cause as text.
#[derive(Debug, PartialEq, Eq)]
pub struct IoFailure {
    pub kind: FailureKind,
    pub detail: String,
}

/// What a `IoFailure` holds, its text as sequences of characters.
pub struct IoFailureView {
    pub kind: FailureKind,
    pub detail: Seq<char>,
}

impl Clone for IoFailure {
    fn clone(&self) -> (copy: Self)
        ensures
            copy == *self,
    {
        IoFailure { kind: self.kind, detail: self.detail.clone() }
    }
}

impl View for IoFailure {
    type V = IoFailureView;

    open spec fn view(&self) -> IoFailureView {
        IoFailureView { kind: self.kind, detail: self.detail@ }
    }
}

/// What can go wrong while a store file is located, read or written.
#[derive(Debug, PartialEq, Eq)]
pub enum RecordError {
    GetStateDir,
    CreateConfigDir { path: String, source: String },
    CreateRecordFile { path: String, source: String },
    OpenRecordFile { path: String, source: String },
    ReadRecordFile { path: String, source: String },
    DeserializeRecordFile { path: String, source: String },
    SerializeRecordFile { source: String },
    WriteRecordFile { path: String, source: String },
    ClearRecords { path: String, source: String },
}

/// What a `RecordError` holds, its text as sequences of characters.
pub enum RecordErrorView {
    GetStateDir,
    CreateConfigDir { path: Seq<char>, source: Seq<char> },
    CreateRecordFile { path: Seq<char>, source: Seq<char> },
    OpenRecordFile { path: Seq<char>, source: Seq<char> },
    ReadRecordFile { path: Seq<char>, source: Seq<char> },
    DeserializeRecordFile { path: Seq<char>, source: Seq<char> },
    SerializeRecordFile { source: Seq<char> },
    WriteRecordFile { path: Seq<char>, source: Seq<char> },
    ClearRecords { path: Seq<char>, source: Seq<char> },
}

impl View for RecordError {
    type V = RecordErrorView;

    open spec fn view(&self) -> RecordErrorView {
        match *self {
            RecordError::GetStateDir => RecordErrorView::GetStateDir,
            RecordError::CreateConfigDir { path, source } => RecordErrorView::CreateConfigDir { path: path@, source: source@ },
            RecordError::CreateRecordFile { path, source } => RecordErrorView::CreateRecordFile { path: path@, source: source@ },
            RecordError::OpenRecordFile { path, source } => RecordErrorView::OpenRecordFile { path: path@, source: source@ },
            RecordError::ReadRecordFile { path, source } => RecordErrorView::ReadRecordFile { path: path@, source: source@ },
            RecordError::DeserializeRecordFile { path, source } => RecordErrorView::DeserializeRecordFile { path: path@, source: source@ },
            RecordError::SerializeRecordFile { source } => RecordErrorView::SerializeRecordFile { source: source@ },
            RecordError::WriteRecordFile { path, source } => RecordErrorView::WriteRecordFile { path: path@, source: source@ },
            RecordError::ClearRecords { path, source } => RecordErrorView::ClearRecords { path: path@, source: source@ },
        }
    }
}

impl Clone for RecordError {
    fn clone(&self) -> (copy: Self)
        ensures
            copy == *self,
    {
        match self {
            RecordError::GetStateDir => RecordError::GetStateDir,
            RecordError::CreateConfigDir { path, source } => RecordError::CreateConfigDir { path: path.clone(), source: source.clone() },
            RecordError::CreateRecordFile { path, source } => RecordError::CreateRecordFile { path: path.clone(), source: source.clone() },
            RecordError::OpenRecordFile { path, source } => RecordError::OpenRecordFile { path: path.clone(), source: source.clone() },
            RecordError::ReadRecordFile { path, source } => RecordError::ReadRecordFile { path: path.clone(), source: source.clone() },
            RecordError::DeserializeRecordFile { path, source } => RecordError::DeserializeRecordFile { path: path.clone(), source: source.clone() },
            RecordError::SerializeRecordFile { source } => RecordError::SerializeRecordFile { source: source.clone() },
            RecordError::WriteRecordFile { path, source } => RecordError::WriteRecordFile { path: path.clone(), source: source.clone() },
            RecordError::ClearRecords { path, source } => RecordError::ClearRecords { path: path.clone(), source: source.clone() },
        }
    }
}

impl DeepView for RecordError {
    type V = RecordErrorView;

    open spec fn deep_view(&self) -> RecordErrorView {
        self@
    }
}

/// What can go wrong while paths are expanded, probed or transferred.
#[derive(Debug, PartialEq, Eq)]
pub enum FileError {
    PathNotFound { path: String },
    AbsolutePath { path: String, source: String },
    Cwd { source: String },
    Metadata { path: String, source: String },
    FileName { path: String },
    ModifiedAccess { path: String, source: String },
    UnsupportedType { path: String },
    Copy { from_path: String, to_path: String, source: String },
    Move { from_path: String, to_path: String, source: String },
    Link { from_path: String, to_path: String, source: String },
    GlobUnreadable { path: String, source: String },
    GlobInvalidPattern { path: String, source: String },
}

/// What a `FileError` holds, its text as sequences of characters.
pub enum FileErrorView {
    PathNotFound { path: Seq<char> },
    AbsolutePath { path: Seq<char>, source: Seq<char> },
    Cwd { source: Seq<char> },
    Metadata { path: Seq<char>, source: Seq<char> },
    FileName { path: Seq<char> },
    ModifiedAccess { path: Seq<char>, source: Seq<char> },
    UnsupportedType { path: Seq<char> },
    Copy { from_path: Seq<char>, to_path: Seq<char>, source: Seq<char> },
    Move { from_path: Seq<char>, to_path: Seq<char>, source: Seq<char> },
    Link { from_path: Seq<char>, to_path: Seq<char>, source: Seq<char> },
    GlobUnreadable { path: Seq<char>, source: Seq<char> },
    GlobInvalidPattern { path: Seq<char>, source: Seq<char> },
}

impl View for FileError {
    type V = FileErrorView;

    open spec fn view(&self) -> FileErrorView {
        match *self {
            FileError::PathNotFound { path } => FileErrorView::PathNotFound { path: path@ },
            FileError::AbsolutePath { path, source } => FileErrorView::AbsolutePath { path: path@, source: source@ },
            FileError::Cwd { source } => FileErrorView::Cwd { source: source@ },
            FileError::Metadata { path, source } => FileErrorView::Metadata { path: path@, source: source@ },
            FileError::FileName { path } => FileErrorView::FileName { path: path@ },
            FileError::ModifiedAccess { path, source } => FileErrorView::ModifiedAccess { path: path@, source: source@ },
            FileError::UnsupportedType { path } => FileErrorView::UnsupportedType { path: path@ },
            FileError::Copy { from_path, to_path, source } => FileErrorView::Copy { from_path: from_path@, to_path: to_path@, source: source@ },
            FileError::Move { from_path, to_path, source } => FileErrorView::Move { from_path: from_path@, to_path: to_path@, source: source@ },
            FileError::Link { from_path, to_path, source } => FileErrorView::Link { from_path: from_path@, to_path: to_path@, source: source@ },
            FileError::GlobUnreadable { path, source } => FileErrorView::GlobUnreadable { path: path@, source: source@ },
            FileError::GlobInvalidPattern { path, source } => FileErrorView::GlobInvalidPattern { path: path@, source: source@ },
        }
    }
}

impl Clone for FileError {
    fn clone(&self) -> (copy: Self)
        ensures
            copy == *self,
    {
        match self {
            FileError::PathNotFound { path } => FileError::PathNotFound { path: path.clone() },
            FileError::AbsolutePath { path, source } => FileError::AbsolutePath { path: path.clone(), source: source.clone() },
            FileError::Cwd { source } => FileError::Cwd { source: source.clone() },
            FileError::Metadata { path, source } => FileError::Metadata { path: path.clone(), source: source.clone() },
            FileError::FileName { path } => FileError::FileName { path: path.clone() },
            FileError::ModifiedAccess { path, source } => FileError::ModifiedAccess { path: path.clone(), source: source.clone() },
            FileError::UnsupportedType { path } => FileError::UnsupportedType { path: path.clone() },
            FileError::Copy { from_path, to_path, source } => FileError::Copy { from_path: from_path.clone(), to_path: to_path.clone(), source: source.clone() },
            FileError::Move { from_path, to_path, source } => FileError::Move { from_path: from_path.clone(), to_path: to_path.clone(), source: source.clone() },
            FileError::Link { from_path, to_path, source } => FileError::Link { from_path: from_path.clone(), to_path: to_path.clone(), source: source.clone() },
            FileError::GlobUnreadable { path, source } => FileError::GlobUnreadable { path: path.clone(), source: source.clone() },
            FileError::GlobInvalidPattern { path, source } => FileError::GlobInvalidPattern { path: path.clone(), source: source.clone() },
        }
    }
}

impl DeepView for FileError {
    type V = FileErrorView;

    open spec fn deep_view(&self) -> FileErrorView {
        self@
    }
}

/// What can go wrong in the terminal while a session runs.
#[derive(Debug, PartialEq, Eq)]
pub enum TuiError {
    TerminalDraw { source: String },
    EventPolling { source: String },
    EventRead { source: String },
    TerminalAutoresize { source: String },
}

/// What a `TuiError` holds, its text as sequences of characters.
pub enum TuiErrorView {
    TerminalDraw { source: Seq<char> },
    EventPolling { source: Seq<char> },
    EventRead { source: Seq<char> },
    TerminalAutoresize { source: Seq<char> },
}

impl View for TuiError {
    type V = TuiErrorView;

    open spec fn view(&self) -> TuiErrorView {
        match *self {
            TuiError::TerminalDraw { source } => TuiErrorView::TerminalDraw { source: source@ },
            TuiError::EventPolling { source } => TuiErrorView::EventPolling { source: source@ },
            TuiError::EventRead { source } => TuiErrorView::EventRead { source: source@ },
            TuiError::TerminalAutoresize { source } => TuiErrorView::TerminalAutoresize { source: source@ },
        }
    }
}

impl Clone for TuiError {
    fn clone(&self) -> (copy: Self)
        ensures
            copy == *self,
    {
        match self {
            TuiError::TerminalDraw { source } => TuiError::TerminalDraw { source: source.clone() },
            TuiError::EventPolling { source } => TuiError::EventPolling { source: source.clone() },
            TuiError::EventRead { source } => TuiError::EventRead { source: source.clone() },
            TuiError::TerminalAutoresize { source } => TuiError::TerminalAutoresize { source: source.clone() },
        }
    }
}

impl DeepView for TuiError {
    type V = TuiErrorView;

    open spec fn deep_view(&self) -> TuiErrorView {
        self@
    }
}

/// Conditions on files that are reported without stopping the command.
#[derive(Debug, PartialEq, Eq)]
pub enum FileWarning {
    ModifiedMismatch { path: String },
    TypeMismatch { path: String, old_type: String, new_type: String },
    SizeMismatch { path: String, old_size: u64, new_size: u64 },
    GlobUnmatched { path: String },
    AlreadyExists { path: String },
    NoPermission { path: String, destination: String },
}

/// What a `FileWarning` holds, its text as sequences of characters.
pub enum FileWarningView {
    ModifiedMismatch { path: Seq<char> },
    TypeMismatch { path: Seq<char>, old_type: Seq<char>, new_type: Seq<char> },
    SizeMismatch { path: Seq<char>, old_size: u64, new_size: u64 },
    GlobUnmatched { path: Seq<char> },
    AlreadyExists { path: Seq<char> },
    NoPermission { path: Seq<char>, destination: Seq<char> },
}

impl View for FileWarning {
    type V = FileWarningView;

    open spec fn view(&self) -> FileWarningView {
        match *self {
            FileWarning::ModifiedMismatch { path } => FileWarningView::ModifiedMismatch { path: path@ },
            FileWarning::TypeMismatch { path, old_type, new_type } => FileWarningView::TypeMismatch { path: path@, old_type: old_type@, new_type: new_type@ },
            FileWarning::SizeMismatch { path, old_size, new_size } => FileWarningView::SizeMismatch { path: path@, old_size, new_size },
            FileWarning::GlobUnmatched { path } => FileWarningView::GlobUnmatched { path: path@ },
            FileWarning::AlreadyExists { path } => FileWarningView::AlreadyExists { path: path@ },
            FileWarning::NoPermission { path, destination } => FileWarningView::NoPermission { path: path@, destination: destination@ },
        }
    }
}

impl Clone for FileWarning {
    fn clone(&self) -> (copy: Self)
        ensures
            copy == *self,
    {
        match self {
            FileWarning::ModifiedMismatch { path } => FileWarning::ModifiedMismatch { path: path.clone() },
            FileWarning::TypeMismatch { path, old_type, new_type } => FileWarning::TypeMismatch { path: path.clone(), old_type: old_type.clone(), new_type: new_type.clone() },
            FileWarning::SizeMismatch { path, old_size, new_size } => FileWarning::SizeMismatch { path: path.clone(), old_size: *old_size, new_size: *new_size },
            FileWarning::GlobUnmatched { path } => FileWarning::GlobUnmatched { path: path.clone() },
            FileWarning::AlreadyExists { path } => FileWarning::AlreadyExists { path: path.clone() },
            FileWarning::NoPermission { path, destination } => FileWarning::NoPermission { path: path.clone(), destination: destination.clone() },
        }
    }
}

impl DeepView for FileWarning {
    type V = FileWarningView;

    open spec fn deep_view(&self) -> FileWarningView {
        self@
    }
}

/// What a command did, one message per path.
#[derive(Debug, PartialEq, Eq)]
pub enum AppInfo {
    Copy { path: String },
    Cut { path: String },
    Link { path: String },
    Paste { path: String },
    Clear { path: String },
}

/// What a `AppInfo` holds, its text as sequences of characters.
pub enum AppInfoView {
    Copy { path: Seq<char> },
    Cut { path: Seq<char> },
    Link { path: Seq<char> },
    Paste { path: Seq<char> },
    Clear { path: Seq<char> },
}

impl View for AppInfo {
    type V = AppInfoView;

    open spec fn view(&self) -> AppInfoView {
        match *self {
            AppInfo::Copy { path } => AppInfoView::Copy { path: path@ },
            AppInfo::Cut { path } => AppInfoView::Cut { path: path@ },
            AppInfo::Link { path } => AppInfoView::Link { path: path@ },
            AppInfo::Paste { path } => AppInfoView::Paste { path: path@ },
            AppInfo::Clear { path } => AppInfoView::Clear { path: path@ },
        }
    }
}

impl Clone for AppInfo {
    fn clone(&self) -> (copy: Self)
        ensures
            copy == *self,
    {
        match self {
            AppInfo::Copy { path } => AppInfo::Copy { path: path.clone() },
            AppInfo::Cut { path } => AppInfo::Cut { path: path.clone() },
            AppInfo::Link { path } => AppInfo::Link { path: path.clone() },
            AppInfo::Paste { path } => AppInfo::Paste { path: path.clone() },
            AppInfo::Clear { path } => AppInfo::Clear { path: path.clone() },
        }
    }
}

impl DeepView for AppInfo {
    type V = AppInfoView;

    open spec fn deep_view(&self) -> AppInfoView {
        self@
    }
}

/// Conditions on the clipboard store that are reported without stopping the
/// command.
#[derive(Clone, Copy, Debug, PartialEq, Eq, Structural)]
pub enum RecordWarning {
    ClipboardUnreadable,
    EntryNotFound,
}

/// Any error of the application.
#[derive(Debug, PartialEq, Eq)]
pub enum AppError {
    Record(RecordError),
    File(FileError),
    Tui(TuiError),
}

/// What a `AppError` holds, its text as sequences of characters.
pub enum AppErrorView {
    Record(RecordErrorView),
    File(FileErrorView),
    Tui(TuiErrorView),
}

impl Clone for AppError {
    fn clone(&self) -> (copy: Self)
        ensures
            copy == *self,
    {
        match self {
            AppError::Record(e) => AppError::Record(e.clone()),
            AppError::File(e) => AppError::File(e.clone()),
            AppError::Tui(e) => AppError::Tui(e.clone()),
        }
    }
}

impl View for AppError {
    type V = AppErrorView;

    open spec fn view(&self) -> AppErrorView {
        match *self {
            AppError::Record(e) => AppErrorView::Record(e@),
            AppError::File(e) => AppErrorView::File(e@),
            AppError::Tui(e) => AppErrorView::Tui(e@),
        }
    }
}

/// Any warning of the application.
#[derive(Debug, PartialEq, Eq)]
pub enum AppWarning {
    File(FileWarning),
    Record(RecordWarning),
}

/// What a `AppWarning` holds, its text as sequences of characters.
pub enum AppWarningView {
    File(FileWarningView),
    Record(RecordWarning),
}

impl Clone for AppWarning {
    fn clone(&self) -> (copy: Self)
        ensures
            copy == *self,
    {
        match self {
            AppWarning::File(w) => AppWarning::File(w.clone()),
            AppWarning::Record(w) => AppWarning::Record(*w),
        }
    }
}

impl View for AppWarning {
    type V = AppWarningView;

    open spec fn view(&self) -> AppWarningView {
        match *self {
            AppWarning::File(w) => AppWarningView::File(w@),
            AppWarning::Record(w) => AppWarningView::Record(w),
        }
    }
}

impl DeepView for AppWarning {
    type V = AppWarningView;

    open spec fn deep_view(&self) -> AppWarningView {
        self@
    }
}

/// Faults in what the user typed.
#[derive(Debug, PartialEq, Eq)]
pub enum InputError {
    MissingArgument(String),
    InvalidCommand(String),
}

impl Clone for InputError {
    fn clone(&self) -> (copy: Self)
        ensures
            copy == *self,
    {
        match self {
            InputError::MissingArgument(name) => InputError::MissingArgument(name.clone()),
            InputError::InvalidCommand(name) => InputError::InvalidCommand(name.clone()),
        }
    }
}

} // verus!
