//! The text of every error, warning and message, as it is shown to the
//! user.

use vstd::prelude::*;
use crate::errors::{AppError, AppErrorView, AppInfo, AppInfoView, AppWarning, AppWarningView, FileError, FileErrorView, FileWarning, FileWarningView, InputError, RecordError, RecordErrorView, RecordWarning, TuiError, TuiErrorView};

verus! {

/// The character for one decimal digit.
pub open spec fn digit_char(digit: nat) -> char {
    if digit == 0 {
        '0'
    } else if digit == 1 {
        '1'
    } else if digit == 2 {
        '2'
    } else if digit == 3 {
        '3'
    } else if digit == 4 {
        '4'
    } else if digit == 5 {
        '5'
    } else if digit == 6 {
        '6'
    } else if digit == 7 {
        '7'
    } else if digit == 8 {
        '8'
    } else {
        '9'
    }
}

/// A number in decimal, without leading zeros.
pub open spec fn decimal_text(n: nat) -> Seq<char>
    decreases n,
{
    if n < 10 {
        seq![digit_char(n)]
    } else {
        decimal_text(n / 10).push(digit_char(n % 10))
    }
}

/// The text of one decimal digit.
fn digit_text(digit: u64) -> (text: &'static str)
    requires
        digit < 10,
    ensures
        text@ == seq![digit_char(digit as nat)],
{
    proof {
        reveal_strlit("0");
        reveal_strlit("1");
        reveal_strlit("2");
        reveal_strlit("3");
        reveal_strlit("4");
        reveal_strlit("5");
        reveal_strlit("6");
        reveal_strlit("7");
        reveal_strlit("8");
        reveal_strlit("9");
    }
    let text: &'static str = if digit == 0 {
        "0"
    } else if digit == 1 {
        "1"
    } else if digit == 2 {
        "2"
    } else if digit == 3 {
        "3"
    } else if digit == 4 {
        "4"
    } else if digit == 5 {
        "5"
    } else if digit == 6 {
        "6"
    } else if digit == 7 {
        "7"
    } else if digit == 8 {
        "8"
    } else {
        "9"
    };
    assert(text@ =~= seq![digit_char(digit as nat)]);
    text
}

/// Writes a number in decimal.
pub fn decimal(n: u64) -> (text: String)
    ensures
        text@ == decimal_text(n as nat),
{
    let mut digits: Vec<u64> = Vec::new();
    let mut rest: u64 = n;
    while rest >= 10
        invariant
            forall|i: int| 0 <= i < digits.len() ==> digits[i] < 10,
            decimal_text(n as nat) == decimal_text(rest as nat) + Seq::new(
                digits.len() as nat,
                |i: int| digit_char(digits[digits.len() - 1 - i] as nat),
            ),
        decreases rest,
    {
        let ghost before = digits@;
        let ghost tail = Seq::new(
            before.len() as nat,
            |i: int| digit_char(before[before.len() - 1 - i] as nat),
        );
        digits.push(rest % 10);
        proof {
            let now = Seq::new(
                digits.len() as nat,
                |i: int| digit_char(digits[digits.len() - 1 - i] as nat),
            );
            assert(now =~= seq![digit_char((rest % 10) as nat)] + tail);
            assert(decimal_text(rest as nat) == decimal_text((rest / 10) as nat).push(
                digit_char((rest % 10) as nat),
            ));
            assert(decimal_text((rest / 10) as nat).push(digit_char((rest % 10) as nat)) + tail
                =~= decimal_text((rest / 10) as nat) + now);
        }
        rest = rest / 10;
    }
    let mut text: String = digit_text(rest).to_owned();
    let mut k: usize = digits.len();
    let ghost tail = Seq::new(
        digits.len() as nat,
        |i: int| digit_char(digits[digits.len() - 1 - i] as nat),
    );
    assert(text@ =~= decimal_text(rest as nat) + tail.take(0));
    while k > 0
        invariant
            k <= digits.len(),
            forall|i: int| 0 <= i < digits.len() ==> digits[i] < 10,
            tail == Seq::new(
                digits.len() as nat,
                |i: int| digit_char(digits[digits.len() - 1 - i] as nat),
            ),
            text@ == decimal_text(rest as nat) + tail.take(digits.len() - k),
        decreases k,
    {
        let ghost before = text@;
        text.append(digit_text(digits[k - 1]));
        proof {
            let done = digits.len() - k;
            assert(tail[done] == digit_char(digits[k - 1] as nat));
            assert(tail.take(done + 1) =~= tail.take(done).push(tail[done]));
            assert(text@ =~= decimal_text(rest as nat) + tail.take(done + 1));
        }
        k -= 1;
    }
    assert(tail.take(digits.len() as int) =~= tail);
    text
}

impl RecordErrorView {
    /// The text of the error.
    pub open spec fn message(self) -> Seq<char> {
        match self {
            RecordErrorView::GetStateDir => "Could not get the user's state directory. Please check your permissions."@,
            RecordErrorView::CreateConfigDir { path, .. } => "Could not create configuration directory at '"@ + path + "'. Please check permissions or create it manually."@,
            RecordErrorView::CreateRecordFile { path, .. } => "Could not create record file at '"@ + path + "'. Please check permissions and available disk space."@,
            RecordErrorView::OpenRecordFile { path, .. } => "Could not open record file at '"@ + path + "'. Please ensure the file exists and you have permission to read it."@,
            RecordErrorView::ReadRecordFile { path, .. } => "Could not read from record file at '"@ + path + "'. The file may be corrupted. Try running `clp clear` to reset it."@,
            RecordErrorView::DeserializeRecordFile { path, .. } => "Could not parse data from record file at '"@ + path + "'. The file may be corrupted or have an invalid format. Try running `clp clear` to reset it."@,
            RecordErrorView::SerializeRecordFile { .. } => "Could not prepare data for saving to the record file."@,
            RecordErrorView::WriteRecordFile { path, .. } => "Could not write to record file at '"@ + path + "'. Please check permissions and available disk space."@,
            RecordErrorView::ClearRecords { path, .. } => "Could not delete record at '"@ + path + "'. Please check permissions."@,
        }
    }
}

impl RecordError {
    /// The text of the error.
    pub fn to_string(&self) -> (text: String)
        ensures
            text@ == self@.message(),
    {
        match self {
            RecordError::GetStateDir => "Could not get the user's state directory. Please check your permissions.".to_owned(),
            RecordError::CreateConfigDir { path, .. } => {
                let mut text: String = "Could not create configuration directory at '".to_owned();
                text.append(path.as_str());
                text.append("'. Please check permissions or create it manually.");
                text
            },
            RecordError::CreateRecordFile { path, .. } => {
                let mut text: String = "Could not create record file at '".to_owned();
                text.append(path.as_str());
                text.append("'. Please check permissions and available disk space.");
                text
            },
            RecordError::OpenRecordFile { path, .. } => {
                let mut text: String = "Could not open record file at '".to_owned();
                text.append(path.as_str());
                text.append("'. Please ensure the file exists and you have permission to read it.");
                text
            },
            RecordError::ReadRecordFile { path, .. } => {
                let mut text: String = "Could not read from record file at '".to_owned();
                text.append(path.as_str());
                text.append("'. The file may be corrupted. Try running `clp clear` to reset it.");
                text
            },
            RecordError::DeserializeRecordFile { path, .. } => {
                let mut text: String = "Could not parse data from record file at '".to_owned();
                text.append(path.as_str());
                text.append("'. The file may be corrupted or have an invalid format. Try running `clp clear` to reset it.");
                text
            },
            RecordError::SerializeRecordFile { .. } => "Could not prepare data for saving to the record file.".to_owned(),
            RecordError::WriteRecordFile { path, .. } => {
                let mut text: String = "Could not write to record file at '".to_owned();
                text.append(path.as_str());
                text.append("'. Please check permissions and available disk space.");
                text
            },
            RecordError::ClearRecords { path, .. } => {
                let mut text: String = "Could not delete record at '".to_owned();
                text.append(path.as_str());
                text.append("'. Please check permissions.");
                text
            },
        }
    }
}

impl FileErrorView {
    /// The text of the error.
    pub open spec fn message(self) -> Seq<char> {
        match self {
            FileErrorView::PathNotFound { path, .. } => "The specified path '"@ + path + "' was not found. Please ensure it exists and is accessible."@,
            FileErrorView::AbsolutePath { path, .. } => "Could not determine the full path for '"@ + path + "'. Please check if the path is valid or if there are permission issues."@,
            FileErrorView::Cwd { .. } => "Could not determine the current working directory. This may be a permission issue or a problem with the file system."@,
            FileErrorView::Metadata { path, .. } => "Could not access metadata for '"@ + path + "'. The path may be invalid or you may not have the necessary permissions."@,
            FileErrorView::FileName { path, .. } => "Could not determine the file name for '"@ + path + "'. The path may be invalid or you may not have the necessary permissions."@,
            FileErrorView::ModifiedAccess { path, .. } => "Could not read the last modified time for '"@ + path + "'. The path may be invalid or you may not have the necessary permissions."@,
            FileErrorView::UnsupportedType { path, .. } => "The file type for '"@ + path + "' is not supported."@,
            FileErrorView::Copy { from_path, to_path, .. } => "Could not copy '"@ + from_path + "' to '"@ + to_path + "'. Please check that the destination exists and you have sufficient permissions."@,
            FileErrorView::Move { from_path, to_path, .. } => "Could not move '"@ + from_path + "' to '"@ + to_path + "'. Please check that the destination exists and you have sufficient permissions."@,
            FileErrorView::Link { from_path, to_path, .. } => "Could not create a symlink from '"@ + from_path + "' to '"@ + to_path + "'. Please check that the destination exists and you have sufficient permissions."@,
            FileErrorView::GlobUnreadable { path, .. } => "Could not read files matching the pattern '"@ + path + "'. Please check the pattern and your file permissions."@,
            FileErrorView::GlobInvalidPattern { path, .. } => "The provided glob pattern '"@ + path + "' is invalid. Please check the syntax."@,
        }
    }
}

impl FileError {
    /// The text of the error.
    pub fn to_string(&self) -> (text: String)
        ensures
            text@ == self@.message(),
    {
        match self {
            FileError::PathNotFound { path, .. } => {
                let mut text: String = "The specified path '".to_owned();
                text.append(path.as_str());
                text.append("' was not found. Please ensure it exists and is accessible.");
                text
            },
            FileError::AbsolutePath { path, .. } => {
                let mut text: String = "Could not determine the full path for '".to_owned();
                text.append(path.as_str());
                text.append("'. Please check if the path is valid or if there are permission issues.");
                text
            },
            FileError::Cwd { .. } => "Could not determine the current working directory. This may be a permission issue or a problem with the file system.".to_owned(),
            FileError::Metadata { path, .. } => {
                let mut text: String = "Could not access metadata for '".to_owned();
                text.append(path.as_str());
                text.append("'. The path may be invalid or you may not have the necessary permissions.");
                text
            },
            FileError::FileName { path, .. } => {
                let mut text: String = "Could not determine the file name for '".to_owned();
                text.append(path.as_str());
                text.append("'. The path may be invalid or you may not have the necessary permissions.");
                text
            },
            FileError::ModifiedAccess { path, .. } => {
                let mut text: String = "Could not read the last modified time for '".to_owned();
                text.append(path.as_str());
                text.append("'. The path may be invalid or you may not have the necessary permissions.");
                text
            },
            FileError::UnsupportedType { path, .. } => {
                let mut text: String = "The file type for '".to_owned();
                text.append(path.as_str());
                text.append("' is not supported.");
                text
            },
            FileError::Copy { from_path, to_path, .. } => {
                let mut text: String = "Could not copy '".to_owned();
                text.append(from_path.as_str());
                text.append("' to '");
                text.append(to_path.as_str());
                text.append("'. Please check that the destination exists and you have sufficient permissions.");
                text
            },
            FileError::Move { from_path, to_path, .. } => {
                let mut text: String = "Could not move '".to_owned();
                text.append(from_path.as_str());
                text.append("' to '");
                text.append(to_path.as_str());
                text.append("'. Please check that the destination exists and you have sufficient permissions.");
                text
            },
            FileError::Link { from_path, to_path, .. } => {
                let mut text: String = "Could not create a symlink from '".to_owned();
                text.append(from_path.as_str());
                text.append("' to '");
                text.append(to_path.as_str());
                text.append("'. Please check that the destination exists and you have sufficient permissions.");
                text
            },
            FileError::GlobUnreadable { path, .. } => {
                let mut text: String = "Could not read files matching the pattern '".to_owned();
                text.append(path.as_str());
                text.append("'. Please check the pattern and your file permissions.");
                text
            },
            FileError::GlobInvalidPattern { path, .. } => {
                let mut text: String = "The provided glob pattern '".to_owned();
                text.append(path.as_str());
                text.append("' is invalid. Please check the syntax.");
                text
            },
        }
    }
}

impl TuiErrorView {
    /// The text of the error.
    pub open spec fn message(self) -> Seq<char> {
        match self {
            TuiErrorView::TerminalDraw { .. } => "A terminal error occurred while drawing the interface."@,
            TuiErrorView::EventPolling { .. } => "A terminal error occurred while waiting for input."@,
            TuiErrorView::EventRead { .. } => "A terminal error occurred while reading input."@,
            TuiErrorView::TerminalAutoresize { .. } => "A terminal error occurred while resizing the interface."@,
        }
    }
}

impl TuiError {
    /// The text of the error.
    pub fn to_string(&self) -> (text: String)
        ensures
            text@ == self@.message(),
    {
        match self {
            TuiError::TerminalDraw { .. } => "A terminal error occurred while drawing the interface.".to_owned(),
            TuiError::EventPolling { .. } => "A terminal error occurred while waiting for input.".to_owned(),
            TuiError::EventRead { .. } => "A terminal error occurred while reading input.".to_owned(),
            TuiError::TerminalAutoresize { .. } => "A terminal error occurred while resizing the interface.".to_owned(),
        }
    }
}

impl FileWarningView {
    /// The text of the warning.
    pub open spec fn message(self) -> Seq<char> {
        match self {
            FileWarningView::ModifiedMismatch { path, .. } => "File '"@ + path + "' was modified since last access. Consider reviewing recent changes."@,
            FileWarningView::TypeMismatch { path, old_type, new_type, .. } => "File '"@ + path + "' changed type from "@ + old_type + " to "@ + new_type + ". This might indicate an unexpected alteration."@,
            FileWarningView::SizeMismatch { path, old_size, new_size, .. } => "File '"@ + path + "' changed size from "@ + decimal_text(old_size as nat) + " bytes to "@ + decimal_text(new_size as nat) + " bytes. Check if this change was intentional."@,
            FileWarningView::GlobUnmatched { path, .. } => "Glob pattern '"@ + path + "' did not match any file."@,
            FileWarningView::AlreadyExists { path, .. } => "File '"@ + path + "' already exists at the destination."@,
            FileWarningView::NoPermission { path, destination, .. } => "Permission denied for source '"@ + path + "' or destination '"@ + destination + "'."@,
        }
    }
}

impl FileWarning {
    /// The text of the warning.
    pub fn to_string(&self) -> (text: String)
        ensures
            text@ == self@.message(),
    {
        match self {
            FileWarning::ModifiedMismatch { path, .. } => {
                let mut text: String = "File '".to_owned();
                text.append(path.as_str());
                text.append("' was modified since last access. Consider reviewing recent changes.");
                text
            },
            FileWarning::TypeMismatch { path, old_type, new_type, .. } => {
                let mut text: String = "File '".to_owned();
                text.append(path.as_str());
                text.append("' changed type from ");
                text.append(old_type.as_str());
                text.append(" to ");
                text.append(new_type.as_str());
                text.append(". This might indicate an unexpected alteration.");
                text
            },
            FileWarning::SizeMismatch { path, old_size, new_size, .. } => {
                let mut text: String = "File '".to_owned();
                text.append(path.as_str());
                text.append("' changed size from ");
                let number: String = decimal(*old_size);
                text.append(number.as_str());
                text.append(" bytes to ");
                let number: String = decimal(*new_size);
                text.append(number.as_str());
                text.append(" bytes. Check if this change was intentional.");
                text
            },
            FileWarning::GlobUnmatched { path, .. } => {
                let mut text: String = "Glob pattern '".to_owned();
                text.append(path.as_str());
                text.append("' did not match any file.");
                text
            },
            FileWarning::AlreadyExists { path, .. } => {
                let mut text: String = "File '".to_owned();
                text.append(path.as_str());
                text.append("' already exists at the destination.");
                text
            },
            FileWarning::NoPermission { path, destination, .. } => {
                let mut text: String = "Permission denied for source '".to_owned();
                text.append(path.as_str());
                text.append("' or destination '");
                text.append(destination.as_str());
                text.append("'.");
                text
            },
        }
    }
}

impl AppInfoView {
    /// The text of the message.
    pub open spec fn message(self) -> Seq<char> {
        match self {
            AppInfoView::Copy { path, .. } => "Copied "@ + path,
            AppInfoView::Cut { path, .. } => "Cut "@ + path,
            AppInfoView::Link { path, .. } => "Linked "@ + path,
            AppInfoView::Paste { path, .. } => "Pasted "@ + path,
            AppInfoView::Clear { path, .. } => "Deleted "@ + path,
        }
    }
}

impl AppInfo {
    /// The text of the message.
    pub fn to_string(&self) -> (text: String)
        ensures
            text@ == self@.message(),
    {
        match self {
            AppInfo::Copy { path, .. } => {
                let mut text: String = "Copied ".to_owned();
                text.append(path.as_str());
                text
            },
            AppInfo::Cut { path, .. } => {
                let mut text: String = "Cut ".to_owned();
                text.append(path.as_str());
                text
            },
            AppInfo::Link { path, .. } => {
                let mut text: String = "Linked ".to_owned();
                text.append(path.as_str());
                text
            },
            AppInfo::Paste { path, .. } => {
                let mut text: String = "Pasted ".to_owned();
                text.append(path.as_str());
                text
            },
            AppInfo::Clear { path, .. } => {
                let mut text: String = "Deleted ".to_owned();
                text.append(path.as_str());
                text
            },
        }
    }
}

impl RecordWarning {
    /// The text of the warning.
    pub open spec fn message(self) -> Seq<char> {
        match self {
            RecordWarning::ClipboardUnreadable => "Could not read data from the clipboard file. It may be corrupted. Try running `clp clear` to reset it."@,
            RecordWarning::EntryNotFound => "Specified entry was not found in the clipboard."@,
        }
    }

    /// The text of the warning.
    pub fn to_string(&self) -> (text: String)
        ensures
            text@ == self.message(),
    {
        match self {
            RecordWarning::ClipboardUnreadable => "Could not read data from the clipboard file. It may be corrupted. Try running `clp clear` to reset it.".to_owned(),
            RecordWarning::EntryNotFound => "Specified entry was not found in the clipboard.".to_owned(),
        }
    }
}

impl AppErrorView {
    /// The text of the error: that of the error it wraps.
    pub open spec fn message(self) -> Seq<char> {
        match self {
            AppErrorView::Record(error) => error.message(),
            AppErrorView::File(error) => error.message(),
            AppErrorView::Tui(error) => error.message(),
        }
    }
}

impl AppError {
    /// The text of the error.
    pub fn to_string(&self) -> (text: String)
        ensures
            text@ == self@.message(),
    {
        match self {
            AppError::Record(error) => error.to_string(),
            AppError::File(error) => error.to_string(),
            AppError::Tui(error) => error.to_string(),
        }
    }
}

impl AppWarningView {
    /// The text of the warning: that of the warning it wraps.
    pub open spec fn message(self) -> Seq<char> {
        match self {
            AppWarningView::File(warning) => warning.message(),
            AppWarningView::Record(warning) => warning.message(),
        }
    }
}

impl AppWarning {
    /// The text of the warning.
    pub fn to_string(&self) -> (text: String)
        ensures
            text@ == self@.message(),
    {
        match self {
            AppWarning::File(warning) => warning.to_string(),
            AppWarning::Record(warning) => warning.to_string(),
        }
    }
}

impl InputError {
    /// The text of the error.
    pub open spec fn message(self) -> Seq<char> {
        match self {
            InputError::MissingArgument(name) => "missing argument: "@ + name@,
            InputError::InvalidCommand(name) => "invalid command: "@ + name@,
        }
    }

    /// The text of the error.
    pub fn to_string(&self) -> (text: String)
        ensures
            text@ == self.message(),
    {
        match self {
            InputError::MissingArgument(name) => {
                let mut text: String = "missing argument: ".to_owned();
                text.append(name.as_str());
                text
            },
            InputError::InvalidCommand(name) => {
                let mut text: String = "invalid command: ".to_owned();
                text.append(name.as_str());
                text
            },
        }
    }
}

} // verus!
