//! Probing, validity, path expansion and transfer.
//!
//! Nothing here touches the filesystem. A probe is handed in as the raw
//! answers that the filesystem gave for one path; the functions below decide
//! what those answers mean.

use vstd::prelude::*;
use crate::errors::{AppError, AppErrorView, AppInfo, AppInfoView, AppWarning, AppWarningView, FailureKind, FileError, FileErrorView, FileWarning, FileWarningView, IoFailure};
use crate::ids::{fresh_id, is_random_uuid};
use crate::models::{EntryType, Metadata, MetadataView, Operation, RecordEntry, RecordEntryView, RecordType};
use crate::records::{read_entries, write_clipboard, RecordStore};
use crate::paths::{has_glob_chars, is_glob_pattern, is_relative, join, joined, lemma_path_order_total, path_order, relative, sort_paths, texts};
use vstd::relations::sorted_by;

verus! {

/// What the filesystem said of one object, without following a symlink.
#[derive(Debug)]
pub struct FileStat {
    pub is_symlink: bool,
    pub is_dir: bool,
    pub is_file: bool,
    /// Byte length.
    pub len: u64,
    /// Last modification in seconds since the Unix epoch, or why it could
    /// not be had.
    pub modified: Result<u64, String>,
}

/// The raw answers for one path.
#[derive(Debug)]
pub struct Probe {
    /// The path that was asked about, made absolute.
    pub absolute_path: String,
    /// What was found there, or why nothing could be.
    pub stat: Result<FileStat, IoFailure>,
    /// The canonical form of the path, or why it has none.
    pub canonical_path: Result<String, IoFailure>,
}

/// The outcome of a probe: what was found, or why the path cannot be used.
pub type ProbeResult = Result<Metadata, FileError>;

/// What a `ProbeResult` holds, its text as sequences of characters.
pub type ProbeResultView = Result<MetadataView, FileErrorView>;

/// The view of a probe's outcome.
pub open spec fn probe_view(result: ProbeResult) -> ProbeResultView {
    match result {
        Ok(metadata) => Ok(metadata@),
        Err(error) => Err(error@),
    }
}

/// The views of a list of probe outcomes.
pub open spec fn probe_views(results: Seq<ProbeResult>) -> Seq<ProbeResultView> {
    results.map_values(|result: ProbeResult| probe_view(result))
}

/// The type of an object. A symlink is a symlink whatever it points at; then
/// come directories, then regular files; anything else has no type here.
pub open spec fn classified(is_symlink: bool, is_dir: bool, is_file: bool) -> Option<EntryType> {
    if is_symlink {
        Some(EntryType::Symlink)
    } else if is_dir {
        Some(EntryType::Directory)
    } else if is_file {
        Some(EntryType::File)
    } else {
        None
    }
}

/// What a probe amounts to.
///
/// A path at which nothing was found is `PathNotFound`; any other failure to
/// look at it is `Metadata`. Then the path must have a canonical form: one
/// that leads nowhere is `PathNotFound` too, and any other failure to
/// resolve it is `AbsolutePath`. Then come the modification time and the
/// type. A directory has no size.
pub open spec fn probed(probe: Probe) -> ProbeResultView {
    match probe.stat {
        Err(failure) => if failure.kind == FailureKind::NotFound {
            Err(FileErrorView::PathNotFound { path: probe.absolute_path@ })
        } else {
            Err(FileErrorView::Metadata { path: probe.absolute_path@, source: failure.detail@ })
        },
        Ok(stat) => match probe.canonical_path {
            Err(failure) => if failure.kind == FailureKind::NotFound {
                Err(FileErrorView::PathNotFound { path: probe.absolute_path@ })
            } else {
                Err(
                    FileErrorView::AbsolutePath {
                        path: probe.absolute_path@,
                        source: failure.detail@,
                    },
                )
            },
            Ok(canonical) => match stat.modified {
                Err(source) => Err(
                    FileErrorView::ModifiedAccess { path: canonical@, source: source@ },
                ),
                Ok(modified) => match classified(stat.is_symlink, stat.is_dir, stat.is_file) {
                    None => Err(FileErrorView::UnsupportedType { path: canonical@ }),
                    Some(entry_type) => Ok(
                        MetadataView {
                            modified,
                            size: if entry_type == EntryType::Directory {
                                None
                            } else {
                                Some(stat.len)
                            },
                            entry_type,
                            absolute_path: canonical@,
                        },
                    ),
                },
            },
        },
    }
}

/// Makes `path` absolute: a relative path is placed under the working
/// directory, and it is an error if that is needed and could not be had.
pub fn resolve_path(path: &str, working_dir: Result<String, String>) -> (resolved: Result<
    String,
    FileError,
>)
    ensures
        match resolved {
            Ok(absolute) => if relative(path@) {
                working_dir is Ok && absolute@ == joined(working_dir->Ok_0@, path@)
            } else {
                absolute@ == path@
            },
            Err(error) => relative(path@) && working_dir is Err && error@ == (FileErrorView::Cwd {
                source: working_dir->Err_0@,
            }),
        },
{
    if is_relative(path) {
        match working_dir {
            Ok(dir) => Ok(join(dir.as_str(), path)),
            Err(source) => Err(FileError::Cwd { source }),
        }
    } else {
        Ok(path.to_owned())
    }
}

/// The canonical form of `path`, given what canonicalizing it gave.
pub fn get_absolute_path(path: &str, canonical: Result<String, String>) -> (result: Result<
    String,
    FileError,
>)
    ensures
        match canonical {
            Ok(found) => result is Ok && result->Ok_0@ == found@,
            Err(source) => result is Err && result->Err_0@ == (FileErrorView::AbsolutePath {
                path: path@,
                source: source@,
            }),
        },
{
    match canonical {
        Ok(found) => Ok(found),
        Err(source) => Err(FileError::AbsolutePath { path: path.to_owned(), source }),
    }
}

/// Turns the raw answers for a path into its metadata.
pub fn get_metadata(probe: Probe) -> (result: ProbeResult)
    ensures
        probe_view(result) == probed(probe),
{
    let Probe { absolute_path, stat, canonical_path } = probe;
    let stat: FileStat = match stat {
        Ok(stat) => stat,
        Err(failure) => {
            if failure.kind == FailureKind::NotFound {
                return Err(FileError::PathNotFound { path: absolute_path });
            } else {
                return Err(FileError::Metadata { path: absolute_path, source: failure.detail });
            }
        },
    };
    let canonical: String = match canonical_path {
        Ok(canonical) => canonical,
        Err(failure) => {
            if failure.kind == FailureKind::NotFound {
                return Err(FileError::PathNotFound { path: absolute_path });
            } else {
                return Err(FileError::AbsolutePath { path: absolute_path, source: failure.detail });
            }
        },
    };
    let modified: u64 = match stat.modified {
        Ok(modified) => modified,
        Err(source) => {
            return Err(FileError::ModifiedAccess { path: canonical, source });
        },
    };
    let entry_type: EntryType = if stat.is_symlink {
        EntryType::Symlink
    } else if stat.is_dir {
        EntryType::Directory
    } else if stat.is_file {
        EntryType::File
    } else {
        return Err(FileError::UnsupportedType { path: canonical });
    };
    let size: Option<u64> = if entry_type == EntryType::Directory {
        None
    } else {
        Some(stat.len)
    };
    Ok(Metadata { modified, size, entry_type, absolute_path: canonical })
}

/// How an entry compares with what is at its path now.
///
/// A failed probe is passed on. Otherwise the first of these that applies is
/// the one warning: the type differs; both sizes are known and differ; the
/// path was modified after the entry was recorded.
pub open spec fn validity(entry: RecordEntryView, probe: ProbeResultView) -> Result<
    Option<FileWarningView>,
    FileErrorView,
> {
    match probe {
        Err(error) => Err(error),
        Ok(found) => if found.entry_type != entry.entry_type {
            Ok(
                Some(
                    FileWarningView::TypeMismatch {
                        path: found.absolute_path,
                        old_type: entry.entry_type.name(),
                        new_type: found.entry_type.name(),
                    },
                ),
            )
        } else if found.size is Some && entry.size is Some && entry.size != found.size {
            Ok(
                Some(
                    FileWarningView::SizeMismatch {
                        path: found.absolute_path,
                        old_size: entry.size->Some_0,
                        new_size: found.size->Some_0,
                    },
                ),
            )
        } else if found.modified > entry.timestamp {
            Ok(Some(FileWarningView::ModifiedMismatch { path: found.absolute_path }))
        } else {
            Ok(None)
        },
    }
}

/// The view of a validity check's result.
pub open spec fn validity_view(result: Result<Option<FileWarning>, FileError>) -> Result<
    Option<FileWarningView>,
    FileErrorView,
> {
    match result {
        Ok(Some(warning)) => Ok(Some(warning@)),
        Ok(None) => Ok(None),
        Err(error) => Err(error@),
    }
}

/// Compares an entry with a fresh probe of its path.
pub fn check_validity(entry: &RecordEntry, probe: &ProbeResult) -> (result: Result<
    Option<FileWarning>,
    FileError,
>)
    ensures
        validity_view(result) == validity(entry@, probe_view(*probe)),
{
    let found: &Metadata = match probe {
        Ok(found) => found,
        Err(error) => {
            return Err(error.clone());
        },
    };
    if found.entry_type != entry.entry_type {
        return Ok(
            Some(
                FileWarning::TypeMismatch {
                    path: found.absolute_path.clone(),
                    old_type: entry.entry_type.to_string(),
                    new_type: found.entry_type.to_string(),
                },
            ),
        );
    }
    match (found.size, entry.size) {
        (Some(new_size), Some(old_size)) => {
            if old_size != new_size {
                return Ok(
                    Some(
                        FileWarning::SizeMismatch {
                            path: found.absolute_path.clone(),
                            old_size,
                            new_size,
                        },
                    ),
                );
            }
        },
        _ => {},
    }
    if found.modified > entry.timestamp {
        return Ok(Some(FileWarning::ModifiedMismatch { path: found.absolute_path.clone() }));
    }
    Ok(None)
}

/// The probe that stands for the `i`-th of some things that were to be
/// probed: the one handed in, and where none was, the finding that nothing
/// is at `path`.
pub open spec fn probe_at(probes: Seq<ProbeResultView>, i: int, path: Seq<char>) -> ProbeResultView {
    if 0 <= i < probes.len() {
        probes[i]
    } else {
        Err(FileErrorView::PathNotFound { path })
    }
}

/// Entries told apart by whether their path can still be probed.
pub struct Resolution {
    /// The entries whose probe succeeded, in their old order.
    pub valid: Seq<RecordEntryView>,
    /// The entries whose probe failed, in their old order.
    pub invalid: Seq<RecordEntryView>,
    /// One warning for each valid entry that drifted from its snapshot.
    pub warnings: Seq<AppWarningView>,
}

/// The first `n` entries, told apart.
pub open spec fn resolved(entries: Seq<RecordEntryView>, probes: Seq<ProbeResultView>, n: nat) -> Resolution
    decreases n,
{
    if n == 0 {
        Resolution { valid: Seq::empty(), invalid: Seq::empty(), warnings: Seq::empty() }
    } else {
        let before = resolved(entries, probes, (n - 1) as nat);
        let entry = entries[n - 1];
        match validity(entry, probe_at(probes, n - 1, entry.path)) {
            Err(_) => Resolution { invalid: before.invalid.push(entry), ..before },
            Ok(None) => Resolution { valid: before.valid.push(entry), ..before },
            Ok(Some(warning)) => Resolution {
                valid: before.valid.push(entry),
                warnings: before.warnings.push(AppWarningView::File(warning)),
                ..before
            },
        }
    }
}

/// Tells the entries whose path can still be probed from those whose path
/// cannot. `probes[i]` is the probe of `entries[i]`; an entry without a
/// probe counts as one whose path was not found.
pub fn filter_invalid_entries(entries: &[RecordEntry], probes: &Vec<ProbeResult>) -> (result: (
    Vec<RecordEntry>,
    Vec<RecordEntry>,
    Vec<AppWarning>,
))
    ensures
        ({
            let expected = resolved(
                entries.deep_view(),
                probe_views(probes@),
                entries.len() as nat,
            );
            &&& result.0.deep_view() == expected.valid
            &&& result.1.deep_view() == expected.invalid
            &&& result.2.deep_view() == expected.warnings
        }),
{
    let mut valid: Vec<RecordEntry> = Vec::new();
    let mut invalid: Vec<RecordEntry> = Vec::new();
    let mut warnings: Vec<AppWarning> = Vec::new();
    let mut i: usize = 0;
    proof {
        assert(valid.deep_view() =~= Seq::<RecordEntryView>::empty());
        assert(invalid.deep_view() =~= Seq::<RecordEntryView>::empty());
        assert(warnings.deep_view() =~= Seq::<AppWarningView>::empty());
    }
    while i < entries.len()
        invariant
            i <= entries.len(),
            valid.deep_view() == resolved(entries.deep_view(), probe_views(probes@), i as nat).valid,
            invalid.deep_view() == resolved(
                entries.deep_view(),
                probe_views(probes@),
                i as nat,
            ).invalid,
            warnings.deep_view() == resolved(
                entries.deep_view(),
                probe_views(probes@),
                i as nat,
            ).warnings,
        decreases entries.len() - i,
    {
        let entry: &RecordEntry = &entries[i];
        let ghost before = resolved(entries.deep_view(), probe_views(probes@), i as nat);
        let checked: Result<Option<FileWarning>, FileError> = if i < probes.len() {
            check_validity(entry, &probes[i])
        } else {
            Err(FileError::PathNotFound { path: entry.path.clone() })
        };
        proof {
            assert(entries.deep_view()[i as int] == entry@);
            assert(validity_view(checked) == validity(
                entry@,
                probe_at(probe_views(probes@), i as int, entry@.path),
            ));
        }
        match checked {
            Err(_) => {
                invalid.push(entry.clone());
                assert(invalid.deep_view() =~= before.invalid.push(entry@));
            },
            Ok(None) => {
                valid.push(entry.clone());
                assert(valid.deep_view() =~= before.valid.push(entry@));
            },
            Ok(Some(warning)) => {
                valid.push(entry.clone());
                assert(valid.deep_view() =~= before.valid.push(entry@));
                warnings.push(AppWarning::File(warning));
                assert(warnings.deep_view() =~= before.warnings.push(
                    AppWarningView::File(warning@),
                ));
            },
        }
        i += 1;
    }
    (valid, invalid, warnings)
}

/// What matching one pattern against the filesystem gave.
#[derive(Debug)]
pub enum GlobOutcome {
    /// The paths that matched, in any order.
    Matched(Vec<String>),
    /// A directory could not be read while matching; the cause.
    Unreadable(String),
    /// The pattern is not well formed; the cause.
    InvalidPattern(String),
}

/// What a `GlobOutcome` holds, its text as sequences of characters.
pub enum GlobOutcomeView {
    Matched(Seq<Seq<char>>),
    Unreadable(Seq<char>),
    InvalidPattern(Seq<char>),
}

impl View for GlobOutcome {
    type V = GlobOutcomeView;

    open spec fn view(&self) -> GlobOutcomeView {
        match *self {
            GlobOutcome::Matched(paths) => GlobOutcomeView::Matched(texts(paths@)),
            GlobOutcome::Unreadable(cause) => GlobOutcomeView::Unreadable(cause@),
            GlobOutcome::InvalidPattern(cause) => GlobOutcomeView::InvalidPattern(cause@),
        }
    }
}

/// The views of a list of outcomes.
pub open spec fn outcome_views(outcomes: Seq<GlobOutcome>) -> Seq<GlobOutcomeView> {
    outcomes.map_values(|outcome: GlobOutcome| outcome@)
}

/// The patterns among the first `n` path arguments, in order.
pub open spec fn patterns_in(paths: Seq<Seq<char>>, n: nat) -> Seq<Seq<char>>
    decreases n,
{
    if n == 0 {
        Seq::empty()
    } else if has_glob_chars(paths[n - 1]) {
        patterns_in(paths, (n - 1) as nat).push(paths[n - 1])
    } else {
        patterns_in(paths, (n - 1) as nat)
    }
}

/// The outcome that stands for the `k`-th pattern: the one handed in, and
/// where none was, that nothing matched.
pub open spec fn outcome_at(outcomes: Seq<GlobOutcomeView>, k: int) -> GlobOutcomeView {
    if 0 <= k < outcomes.len() {
        outcomes[k]
    } else {
        GlobOutcomeView::Matched(Seq::empty())
    }
}

/// `paths`, followed by each of `items` that is not yet in the list.
pub open spec fn with_new(paths: Seq<Seq<char>>, items: Seq<Seq<char>>) -> Seq<Seq<char>>
    decreases items.len(),
{
    if items.len() == 0 {
        paths
    } else {
        let before = with_new(paths, items.drop_last());
        if before.contains(items.last()) {
            before
        } else {
            before.push(items.last())
        }
    }
}

/// An expansion in progress.
pub struct Expansion {
    /// The concrete paths so far, each once, in the order in which they
    /// first came up.
    pub paths: Seq<Seq<char>>,
    /// One warning for each pattern that matched nothing.
    pub warnings: Seq<AppWarningView>,
}

/// The expansion of the first `n` path arguments.
///
/// A plain path stands for itself. A pattern stands for its matches in
/// listing order; one without matches adds a warning instead. An invalid
/// pattern, and one whose matching failed, end the expansion with an error.
pub open spec fn expanded(paths: Seq<Seq<char>>, outcomes: Seq<GlobOutcomeView>, n: nat) -> Result<
    Expansion,
    FileErrorView,
>
    decreases n,
{
    if n == 0 {
        Ok(Expansion { paths: Seq::empty(), warnings: Seq::empty() })
    } else {
        match expanded(paths, outcomes, (n - 1) as nat) {
            Err(error) => Err(error),
            Ok(before) => {
                let path = paths[n - 1];
                if !has_glob_chars(path) {
                    Ok(Expansion { paths: with_new(before.paths, seq![path]), ..before })
                } else {
                    match outcome_at(outcomes, patterns_in(paths, (n - 1) as nat).len() as int) {
                        GlobOutcomeView::InvalidPattern(source) => Err(
                            FileErrorView::GlobInvalidPattern { path, source },
                        ),
                        GlobOutcomeView::Unreadable(source) => Err(
                            FileErrorView::GlobUnreadable { path, source },
                        ),
                        GlobOutcomeView::Matched(matches) => if matches.len() == 0 {
                            Ok(
                                Expansion {
                                    warnings: before.warnings.push(
                                        AppWarningView::File(
                                            FileWarningView::GlobUnmatched { path },
                                        ),
                                    ),
                                    ..before
                                },
                            )
                        } else {
                            Ok(
                                Expansion {
                                    paths: with_new(before.paths, matches.sort_by(path_order())),
                                    ..before
                                },
                            )
                        },
                    }
                }
            },
        }
    }
}

/// Adding paths of which none is listed yet, and none twice, adds them all.
pub proof fn lemma_with_new_distinct(paths: Seq<Seq<char>>, items: Seq<Seq<char>>)
    requires
        items.no_duplicates(),
        forall|i: int| 0 <= i < items.len() ==> !paths.contains(#[trigger] items[i]),
    ensures
        with_new(paths, items) == paths + items,
    decreases items.len(),
{
    if items.len() == 0 {
        assert(paths + items =~= paths);
    } else {
        let front = items.drop_last();
        lemma_with_new_distinct(paths, front);
        let before = paths + front;
        if before.contains(items.last()) {
            let j = choose|j: int| 0 <= j < before.len() && before[j] == items.last();
            if j < paths.len() {
                assert(paths[j] == items.last());
                assert(paths.contains(items[items.len() - 1]));
            } else {
                assert(items[j - paths.len()] == items[items.len() - 1]);
            }
        }
        assert(before.push(items.last()) =~= paths + items);
    }
}

/// Adding paths to a list that names no path twice gives such a list.
pub proof fn lemma_with_new_unique(paths: Seq<Seq<char>>, items: Seq<Seq<char>>)
    requires
        paths.no_duplicates(),
    ensures
        with_new(paths, items).no_duplicates(),
    decreases items.len(),
{
    if items.len() > 0 {
        lemma_with_new_unique(paths, items.drop_last());
    }
}

/// An expansion names no path twice.
pub proof fn lemma_expansion_unique(
    paths: Seq<Seq<char>>,
    outcomes: Seq<GlobOutcomeView>,
    n: nat,
)
    ensures
        expanded(paths, outcomes, n) matches Ok(expansion) ==> expansion.paths.no_duplicates(),
    decreases n,
{
    if n > 0 {
        lemma_expansion_unique(paths, outcomes, (n - 1) as nat);
        match expanded(paths, outcomes, (n - 1) as nat) {
            Ok(before) => {
                lemma_with_new_unique(before.paths, seq![paths[n - 1]]);
                match outcome_at(outcomes, patterns_in(paths, (n - 1) as nat).len() as int) {
                    GlobOutcomeView::Matched(matches) => {
                        lemma_with_new_unique(before.paths, matches.sort_by(path_order()));
                    },
                    _ => {},
                }
            },
            Err(_) => {},
        }
    }
}

/// A plain path expands to itself, with no warning, whatever the
/// filesystem holds.
pub proof fn lemma_plain_path_expands_to_itself(path: Seq<char>, outcomes: Seq<GlobOutcomeView>)
    requires
        !has_glob_chars(path),
    ensures
        expanded(seq![path], outcomes, 1) == Ok::<Expansion, FileErrorView>(
            Expansion { paths: seq![path], warnings: Seq::empty() },
        ),
{
    let start = expanded(seq![path], outcomes, 0);
    assert(start == Ok::<Expansion, FileErrorView>(
        Expansion { paths: Seq::empty(), warnings: Seq::empty() },
    ));
    assert(seq![path].drop_last() =~= Seq::<Seq<char>>::empty());
    assert(with_new(Seq::empty(), seq![path].drop_last()) =~= Seq::<Seq<char>>::empty());
    assert(!Seq::<Seq<char>>::empty().contains(path));
    assert(with_new(Seq::empty(), seq![path]) =~= seq![path]);
}

/// A pattern that matches nothing expands to nothing and gives exactly one
/// warning, which names the pattern.
pub proof fn lemma_unmatched_pattern_warns(pattern: Seq<char>, outcomes: Seq<GlobOutcomeView>)
    requires
        has_glob_chars(pattern),
        outcome_at(outcomes, 0) == GlobOutcomeView::Matched(Seq::empty()),
    ensures
        expanded(seq![pattern], outcomes, 1) == Ok::<Expansion, FileErrorView>(
            Expansion {
                paths: Seq::empty(),
                warnings: seq![
                    AppWarningView::File(FileWarningView::GlobUnmatched { path: pattern }),
                ],
            },
        ),
{
    assert(expanded(seq![pattern], outcomes, 0) == Ok::<Expansion, FileErrorView>(
        Expansion { paths: Seq::empty(), warnings: Seq::empty() },
    ));
    assert(patterns_in(seq![pattern], 0).len() == 0);
    assert(seq![pattern][0] == pattern);
    assert(Seq::<AppWarningView>::empty().push(
        AppWarningView::File(FileWarningView::GlobUnmatched { path: pattern }),
    ) =~= seq![AppWarningView::File(FileWarningView::GlobUnmatched { path: pattern })]);
}

/// A pattern that matches some paths expands to just those paths, in
/// listing order, with no warning.
pub proof fn lemma_matched_pattern_lists_sorted(
    pattern: Seq<char>,
    matches: Seq<Seq<char>>,
    outcomes: Seq<GlobOutcomeView>,
)
    requires
        has_glob_chars(pattern),
        matches.len() > 0,
        matches.no_duplicates(),
        outcome_at(outcomes, 0) == GlobOutcomeView::Matched(matches),
    ensures
        expanded(seq![pattern], outcomes, 1) == Ok::<Expansion, FileErrorView>(
            Expansion { paths: matches.sort_by(path_order()), warnings: Seq::empty() },
        ),
        matches.sort_by(path_order()).len() == matches.len(),
        sorted_by(matches.sort_by(path_order()), path_order()),
        matches.sort_by(path_order()).to_multiset() == matches.to_multiset(),
{
    broadcast use vstd::seq_lib::group_to_multiset_ensures;

    let sorted = matches.sort_by(path_order());
    lemma_path_order_total();
    matches.lemma_sort_by_ensures(path_order());
    matches.lemma_multiset_has_no_duplicates();
    sorted.lemma_multiset_has_no_duplicates_conv();
    assert(sorted.len() == sorted.to_multiset().len());
    assert(matches.len() == matches.to_multiset().len());
    assert(expanded(seq![pattern], outcomes, 0) == Ok::<Expansion, FileErrorView>(
        Expansion { paths: Seq::empty(), warnings: Seq::empty() },
    ));
    assert(patterns_in(seq![pattern], 0).len() == 0);
    assert(seq![pattern][0] == pattern);
    lemma_with_new_distinct(Seq::empty(), sorted);
    assert(Seq::<Seq<char>>::empty() + sorted =~= sorted);
}

/// The path arguments that are patterns, in order: those that have to be
/// matched against the filesystem before `expand_paths` is called.
pub fn patterns_to_expand(paths: &Vec<String>) -> (patterns: Vec<String>)
    ensures
        texts(patterns@) == patterns_in(texts(paths@), paths.len() as nat),
{
    let mut patterns: Vec<String> = Vec::new();
    let mut i: usize = 0;
    assert(texts(patterns@) =~= Seq::<Seq<char>>::empty());
    while i < paths.len()
        invariant
            i <= paths.len(),
            texts(patterns@) == patterns_in(texts(paths@), i as nat),
        decreases paths.len() - i,
    {
        let ghost before = texts(patterns@);
        if is_glob_pattern(paths[i].as_str()) {
            patterns.push(paths[i].clone());
            assert(texts(patterns@) =~= before.push(paths[i as int]@));
        }
        i += 1;
    }
    patterns
}

/// Whether `paths` holds the text of `item`.
fn holds_text(paths: &Vec<String>, item: &String) -> (answer: bool)
    ensures
        answer == texts(paths@).contains(item@),
{
    let mut i: usize = 0;
    while i < paths.len()
        invariant
            i <= paths.len(),
            forall|j: int| 0 <= j < i ==> texts(paths@)[j] != item@,
        decreases paths.len() - i,
    {
        if paths[i] == *item {
            assert(texts(paths@)[i as int] == item@);
            return true;
        }
        i += 1;
    }
    false
}

/// Appends each of `items` that `paths` does not hold yet.
fn append_new(paths: &mut Vec<String>, items: &Vec<String>)
    ensures
        texts(final(paths)@) == with_new(texts(old(paths)@), texts(items@)),
{
    let mut i: usize = 0;
    assert(texts(items@).take(0) =~= Seq::<Seq<char>>::empty());
    while i < items.len()
        invariant
            i <= items.len(),
            texts(paths@) == with_new(texts(old(paths)@), texts(items@).take(i as int)),
        decreases items.len() - i,
    {
        let ghost before = texts(paths@);
        proof {
            let next = texts(items@).take(i + 1);
            assert(next.drop_last() =~= texts(items@).take(i as int));
            assert(next.last() == items[i as int]@);
        }
        if !holds_text(paths, &items[i]) {
            paths.push(items[i].clone());
            assert(texts(paths@) =~= before.push(items[i as int]@));
        }
        i += 1;
    }
    assert(texts(items@).take(items.len() as int) =~= texts(items@));
}

/// Turns path arguments into concrete paths.
///
/// `globbed[k]` is what matching the `k`-th pattern of
/// `patterns_to_expand(paths)` gave; a pattern for which nothing was handed
/// in counts as one that matched nothing.
pub fn expand_paths(paths: Vec<String>, globbed: Vec<GlobOutcome>) -> (result: Result<
    (Vec<String>, Vec<AppWarning>),
    FileError,
>)
    ensures
        match expanded(texts(paths@), outcome_views(globbed@), paths.len() as nat) {
            Ok(expansion) => {
                &&& result is Ok
                &&& texts(result->Ok_0.0@) == expansion.paths
                &&& result->Ok_0.1.deep_view() == expansion.warnings
            },
            Err(error) => result is Err && result->Err_0@ == error,
        },
{
    let mut found: Vec<String> = Vec::new();
    let mut warnings: Vec<AppWarning> = Vec::new();
    let mut used: usize = 0;
    let mut i: usize = 0;
    let ghost all = texts(paths@);
    let ghost outcomes = outcome_views(globbed@);
    proof {
        assert(texts(found@) =~= Seq::<Seq<char>>::empty());
        assert(warnings.deep_view() =~= Seq::<AppWarningView>::empty());
    }
    while i < paths.len()
        invariant
            i <= paths.len(),
            used <= i,
            all == texts(paths@),
            outcomes == outcome_views(globbed@),
            used == patterns_in(all, i as nat).len(),
            expanded(all, outcomes, i as nat) == Ok::<Expansion, FileErrorView>(
                Expansion { paths: texts(found@), warnings: warnings.deep_view() },
            ),
        decreases paths.len() - i,
    {
        let path: &String = &paths[i];
        let ghost before = warnings.deep_view();
        assert(all[i as int] == path@);
        if !is_glob_pattern(path.as_str()) {
            let mut single: Vec<String> = Vec::new();
            single.push(path.clone());
            assert(texts(single@) =~= seq![path@]);
            append_new(&mut found, &single);
        } else {
            let ghost outcome = outcome_at(outcomes, used as int);
            if used < globbed.len() {
                assert(outcomes[used as int] == globbed[used as int]@);
                match &globbed[used] {
                    GlobOutcome::InvalidPattern(source) => {
                        proof {
                            lemma_expansion_error_stays(
                                all,
                                outcomes,
                                (i + 1) as nat,
                                paths.len() as nat,
                            );
                        }
                        return Err(
                            FileError::GlobInvalidPattern {
                                path: path.clone(),
                                source: source.clone(),
                            },
                        );
                    },
                    GlobOutcome::Unreadable(source) => {
                        proof {
                            lemma_expansion_error_stays(
                                all,
                                outcomes,
                                (i + 1) as nat,
                                paths.len() as nat,
                            );
                        }
                        return Err(
                            FileError::GlobUnreadable { path: path.clone(), source: source.clone() },
                        );
                    },
                    GlobOutcome::Matched(matches) => {
                        if matches.len() == 0 {
                            assert(texts(matches@).len() == 0);
                            warnings.push(
                                AppWarning::File(FileWarning::GlobUnmatched { path: path.clone() }),
                            );
                            assert(warnings.deep_view() =~= before.push(
                                AppWarningView::File(
                                    FileWarningView::GlobUnmatched { path: path@ },
                                ),
                            ));
                        } else {
                            assert(texts(matches@).len() != 0);
                            let sorted: Vec<String> = sort_paths(matches);
                            append_new(&mut found, &sorted);
                        }
                    },
                }
            } else {
                warnings.push(AppWarning::File(FileWarning::GlobUnmatched { path: path.clone() }));
                assert(warnings.deep_view() =~= before.push(
                    AppWarningView::File(FileWarningView::GlobUnmatched { path: path@ }),
                ));
            }
            used += 1;
        }
        i += 1;
    }
    Ok((found, warnings))
}

/// Once the expansion has failed, the error is the outcome however many more
/// arguments are counted.
proof fn lemma_expansion_error_stays(
    paths: Seq<Seq<char>>,
    outcomes: Seq<GlobOutcomeView>,
    n: nat,
    m: nat,
)
    requires
        n <= m,
        expanded(paths, outcomes, n) is Err,
    ensures
        expanded(paths, outcomes, m) == expanded(paths, outcomes, n),
    decreases m,
{
    if n < m {
        lemma_expansion_error_stays(paths, outcomes, n, (m - 1) as nat);
    }
}

/// The message for one transferred path.
pub open spec fn transfer_info(operation: Operation, path: Seq<char>) -> AppInfoView {
    match operation {
        Operation::Copy => AppInfoView::Copy { path },
        Operation::Cut => AppInfoView::Cut { path },
        Operation::Link => AppInfoView::Link { path },
    }
}

/// The messages for a batch of transferred paths, one for each in order.
pub open spec fn transfer_infos(operation: Operation, paths: Seq<Seq<char>>) -> Seq<AppInfoView> {
    Seq::new(paths.len(), |i: int| transfer_info(operation, paths[i]))
}

/// The entry that records what a probe found.
pub open spec fn recorded(found: MetadataView, operation: Operation, now: u64, id: u128) -> RecordEntryView {
    RecordEntryView {
        timestamp: now,
        size: found.size,
        operation,
        entry_type: found.entry_type,
        path: found.absolute_path,
        id,
    }
}

/// The first failed probe among those of the first `n` paths.
pub open spec fn first_failure(paths: Seq<Seq<char>>, probes: Seq<ProbeResultView>, n: nat) -> Option<
    FileErrorView,
>
    decreases n,
{
    if n == 0 {
        None
    } else {
        match first_failure(paths, probes, (n - 1) as nat) {
            Some(error) => Some(error),
            None => match probe_at(probes, n - 1, paths[n - 1]) {
                Err(error) => Some(error),
                Ok(_) => None,
            },
        }
    }
}

/// The entries for a batch whose probes all succeeded, in the order of the
/// paths, the `i`-th with the `i`-th of `ids`.
pub open spec fn batch(
    probes: Seq<ProbeResultView>,
    ids: Seq<u128>,
    operation: Operation,
    now: u64,
) -> Seq<RecordEntryView> {
    Seq::new(ids.len(), |i: int| recorded(probes[i]->Ok_0, operation, now, ids[i]))
}

/// A list after `added` were pushed to its front one by one: the last of
/// them is now first.
pub open spec fn pushed_front(entries: Seq<RecordEntryView>, added: Seq<RecordEntryView>) -> Seq<
    RecordEntryView,
> {
    added.reverse() + entries
}

impl RecordEntry {
    /// The entry that records what a probe found, under the given
    /// identifier.
    pub fn recorded(found: Metadata, operation: Operation, now: u64, id: u128) -> (entry: Self)
        ensures
            entry@ == recorded(found@, operation, now, id),
    {
        RecordEntry {
            timestamp: now,
            size: found.size,
            operation,
            entry_type: found.entry_type,
            path: found.absolute_path,
            id,
        }
    }
}

/// Pushes `added` to the front of the clipboard, one by one, and writes it.
pub fn record_entries(store: &mut RecordStore, added: &Vec<RecordEntry>)
    ensures
        final(store)@ == old(store)@.written(
            RecordType::Clipboard,
            pushed_front(old(store)@.entries(RecordType::Clipboard), added.deep_view()),
        ),
{
    let current: Vec<RecordEntry> = read_entries(store, &RecordType::Clipboard);
    let mut updated: Vec<RecordEntry> = Vec::new();
    let n: usize = added.len();
    let mut i: usize = n;
    let ghost front = added.deep_view().reverse();
    assert(updated.deep_view() =~= front.take(0));
    while i > 0
        invariant
            i <= n,
            n == added.len(),
            front == added.deep_view().reverse(),
            updated.deep_view() == front.take(n - i),
        decreases i,
    {
        let ghost before = updated.deep_view();
        updated.push(added[i - 1].clone());
        proof {
            assert(front[n - i] == added[i - 1]@);
            assert(updated.deep_view() =~= before.push(added[i - 1]@));
            assert(front.take(n - i + 1) =~= front.take(n - i).push(front[n - i]));
        }
        i -= 1;
    }
    assert(front.take(n as int) =~= front);
    let mut j: usize = 0;
    while j < current.len()
        invariant
            j <= current.len(),
            updated.deep_view() == front + current.deep_view().take(j as int),
        decreases current.len() - j,
    {
        let ghost before = updated.deep_view();
        updated.push(current[j].clone());
        proof {
            assert(updated.deep_view() =~= before.push(current[j as int]@));
            assert(current.deep_view().take(j + 1) =~= current.deep_view().take(j as int).push(
                current[j as int]@,
            ));
        }
        j += 1;
    }
    assert(current.deep_view().take(current.len() as int) =~= current.deep_view());
    let slice: &[RecordEntry] = updated.as_slice();
    assert(slice.deep_view() =~= updated.deep_view());
    write_clipboard(store, slice);
}

/// Records a batch of paths on the clipboard, all of them or none.
///
/// `probes[i]` is the probe of `paths[i]`; a path without a probe counts as
/// not found. The first failed probe is the error, and the store is then
/// left as it was. Otherwise each path gets an entry with a new identifier
/// and the time `now`; the entries are pushed to the front of the clipboard
/// in the order of the paths, the clipboard is written once, and there is
/// one message for each path.
pub fn handle_transfer(
    store: &mut RecordStore,
    paths: Vec<String>,
    probes: Vec<ProbeResult>,
    operation: Operation,
    now: u64,
) -> (result: Result<Vec<AppInfo>, AppError>)
    ensures
        match first_failure(texts(paths@), probe_views(probes@), paths.len() as nat) {
            Some(error) => {
                &&& result is Err
                &&& result->Err_0@ == AppErrorView::File(error)
                &&& *final(store) == *old(store)
            },
            None => {
                &&& result is Ok
                &&& result->Ok_0.deep_view() == transfer_infos(operation, texts(paths@))
                &&& exists|ids: Seq<u128>|
                    {
                        &&& ids.len() == paths.len()
                        &&& forall|i: int| 0 <= i < ids.len() ==> is_random_uuid(#[trigger] ids[i])
                        &&& final(store)@ == old(store)@.written(
                            RecordType::Clipboard,
                            pushed_front(
                                old(store)@.entries(RecordType::Clipboard),
                                batch(probe_views(probes@), ids, operation, now),
                            ),
                        )
                    }
            },
        },
{
    let ghost all = texts(paths@);
    let ghost outcomes = probe_views(probes@);
    let mut added: Vec<RecordEntry> = Vec::new();
    let mut infos: Vec<AppInfo> = Vec::new();
    let ghost mut ids: Seq<u128> = Seq::empty();
    let mut i: usize = 0;
    proof {
        assert(added.deep_view() =~= batch(outcomes, ids, operation, now));
        assert(infos.deep_view() =~= transfer_infos(operation, all.take(0)));
    }
    while i < paths.len()
        invariant
            i <= paths.len(),
            all == texts(paths@),
            outcomes == probe_views(probes@),
            *store == *old(store),
            first_failure(all, outcomes, i as nat) is None,
            i <= probes.len(),
            ids.len() == i,
            forall|j: int| 0 <= j < ids.len() ==> is_random_uuid(#[trigger] ids[j]),
            added.deep_view() == batch(outcomes, ids, operation, now),
            infos.deep_view() == transfer_infos(operation, all.take(i as int)),
        decreases paths.len() - i,
    {
        let path: &String = &paths[i];
        assert(all[i as int] == path@);
        if i >= probes.len() {
            proof {
                lemma_failure_stays(all, outcomes, (i + 1) as nat, paths.len() as nat);
            }
            return Err(AppError::File(FileError::PathNotFound { path: path.clone() }));
        }
        assert(outcomes[i as int] == probe_view(probes[i as int]));
        let found: Metadata = match &probes[i] {
            Ok(found) => found.clone(),
            Err(error) => {
                proof {
                    lemma_failure_stays(all, outcomes, (i + 1) as nat, paths.len() as nat);
                }
                return Err(AppError::File(error.clone()));
            },
        };
        let id: u128 = fresh_id();
        let ghost entries_before = added.deep_view();
        let ghost infos_before = infos.deep_view();
        let ghost ids_before = ids;
        let entry: RecordEntry = RecordEntry::recorded(found, operation, now, id);
        added.push(entry);
        infos.push(
            match operation {
                Operation::Copy => AppInfo::Copy { path: path.clone() },
                Operation::Cut => AppInfo::Cut { path: path.clone() },
                Operation::Link => AppInfo::Link { path: path.clone() },
            },
        );
        proof {
            ids = ids.push(id);
            assert(added.deep_view() =~= entries_before.push(
                recorded(outcomes[i as int]->Ok_0, operation, now, id),
            ));
            assert(added.deep_view() =~= batch(outcomes, ids, operation, now));
            assert(infos.deep_view() =~= infos_before.push(transfer_info(operation, path@)));
            assert(infos.deep_view() =~= transfer_infos(operation, all.take(i + 1)));
        }
        i += 1;
    }
    assert(all.take(paths.len() as int) =~= all);
    record_entries(store, &added);
    Ok(infos)
}

/// Once a probe has failed, the first failure is the same however many more
/// paths are counted.
proof fn lemma_failure_stays(
    paths: Seq<Seq<char>>,
    probes: Seq<ProbeResultView>,
    n: nat,
    m: nat,
)
    requires
        n <= m,
        first_failure(paths, probes, n) is Some,
    ensures
        first_failure(paths, probes, m) == first_failure(paths, probes, n),
    decreases m,
{
    if n < m {
        lemma_failure_stays(paths, probes, n, (m - 1) as nat);
    }
}

} // verus!
