//! What a repository snapshot left out, and the warnings that say so.

use crate::path::{path_text, FilePath};
use crate::text::{
    comma_list, contains_text, decimal, decimal_reads_back, decimal_value, ends_with,
    join_with_commas, option_text, signed_text, texts, texts_go_one_for_one, unsigned_text,
};
use vstd::prelude::*;
use vstd::string::*;

verus! {

pub const KIB: i64 = 1024;

pub const MIB: i64 = 1024 * 1024;

/// How many directories a warning names.
pub const MAX_DIRS: usize = 3;

/// How many files a warning names.
pub const MAX_FILES: usize = 3;

/// An untracked directory that holds too many files for a snapshot.
#[derive(Debug, PartialEq, Eq)]
pub struct LargeUntrackedDir {
    pub path: FilePath,
    pub file_count: i64,
}

/// An untracked file that is too large for a snapshot.
#[derive(Debug, PartialEq, Eq)]
pub struct IgnoredUntrackedFile {
    pub path: FilePath,
    pub byte_size: i64,
}

/// What a snapshot left out.
#[derive(Debug, PartialEq, Eq)]
pub struct GhostSnapshotReport {
    pub large_untracked_dirs: Vec<LargeUntrackedDir>,
    pub ignored_untracked_files: Vec<IgnoredUntrackedFile>,
}

/// A size in whole MiB from one MiB up, in whole KiB from one KiB up, else in bytes.
pub open spec fn bytes_text(bytes: int) -> Seq<char> {
    if bytes >= MIB {
        decimal(bytes / MIB as int) + " MiB"@
    } else if bytes >= KIB {
        decimal(bytes / KIB as int) + " KiB"@
    } else {
        decimal(bytes) + " B"@
    }
}

/// How a warning names one directory.
pub open spec fn dir_part(dir: LargeUntrackedDir) -> Seq<char> {
    path_text(dir.path@) + " ("@ + decimal(dir.file_count as int) + " files)"@
}

/// How a warning names one file.
pub open spec fn file_part(file: IgnoredUntrackedFile) -> Seq<char> {
    path_text(file.path@) + " ("@ + bytes_text(file.byte_size as int) + ")"@
}

/// The first `max` parts, and a last one that counts those left out, where there are any.
pub open spec fn abridged(parts: Seq<Seq<char>>, max: int) -> Seq<Seq<char>> {
    if parts.len() > max {
        parts.take(max).push(decimal(parts.len() - max) + " more"@)
    } else {
        parts
    }
}

/// Something that a warning names.
pub trait Entry: Sized {
    /// How a warning names it.
    spec fn part(self) -> Seq<char>;

    fn format_part(&self) -> (text: String)
        ensures
            text@ == self.part(),
    ;
}

impl Entry for LargeUntrackedDir {
    open spec fn part(self) -> Seq<char> {
        dir_part(self)
    }

    fn format_part(&self) -> (text: String) {
        let mut text = self.path.to_text();
        text.append(" (");
        text.append(signed_text(self.file_count).as_str());
        text.append(" files)");
        text
    }
}

impl Entry for IgnoredUntrackedFile {
    open spec fn part(self) -> Seq<char> {
        file_part(self)
    }

    fn format_part(&self) -> (text: String) {
        let mut text = self.path.to_text();
        text.append(" (");
        text.append(format_bytes(self.byte_size).as_str());
        text.append(")");
        text
    }
}

/// How a warning names each entry.
pub open spec fn parts<E: Entry>(entries: Seq<E>) -> Seq<Seq<char>> {
    entries.map_values(|entry: E| entry.part())
}

/// What a warning says of entries of which it may name `max`.
pub open spec fn entries_list<E: Entry>(entries: Seq<E>, max: int) -> Seq<char> {
    comma_list(abridged(parts(entries), max))
}

/// The warning about large untracked directories, at a threshold.
pub open spec fn large_untracked_text(threshold: int, dirs: Seq<LargeUntrackedDir>) -> Seq<char> {
    "Repository snapshot ignored large untracked directories (>= "@ + decimal(threshold)
        + " files): "@ + entries_list(dirs, MAX_DIRS as int)
        + ". These directories are excluded from snapshots and undo cleanup. Adjust `ghost_snapshot.ignore_large_untracked_dirs` to change this behavior."@
}

/// The warning about ignored untracked files, at a threshold.
pub open spec fn ignored_files_text(threshold: int, files: Seq<IgnoredUntrackedFile>) -> Seq<char> {
    "Repository snapshot ignored untracked files larger than "@ + bytes_text(threshold) + ": "@
        + entries_list(files, MAX_FILES as int)
        + ". These files are preserved during undo cleanup, but their contents are not captured in the snapshot. Adjust `ghost_snapshot.ignore_large_untracked_files` to change this behavior. To avoid this message in the future, update your `.gitignore`."@
}

/// The warning about directories, where there is a threshold and a directory to name.
pub open spec fn large_untracked_warning(
    threshold: Option<i64>,
    dirs: Seq<LargeUntrackedDir>,
) -> Option<Seq<char>> {
    match threshold {
        Some(threshold) if dirs.len() > 0 => Some(large_untracked_text(threshold as int, dirs)),
        _ => None,
    }
}

/// The warning about files, where there is a threshold and a file to name.
pub open spec fn ignored_files_warning(
    threshold: Option<i64>,
    files: Seq<IgnoredUntrackedFile>,
) -> Option<Seq<char>> {
    match threshold {
        Some(threshold) if files.len() > 0 => Some(ignored_files_text(threshold as int, files)),
        _ => None,
    }
}

/// One item, or none.
pub open spec fn as_list(item: Option<Seq<char>>) -> Seq<Seq<char>> {
    match item {
        Some(text) => seq![text],
        None => Seq::empty(),
    }
}

/// Every warning about a report: that about directories first.
pub open spec fn snapshot_warnings(
    ignore_large_untracked_files: Option<i64>,
    ignore_large_untracked_dirs: Option<i64>,
    report: GhostSnapshotReport,
) -> Seq<Seq<char>> {
    as_list(large_untracked_warning(ignore_large_untracked_dirs, report.large_untracked_dirs@))
        + as_list(
        ignored_files_warning(ignore_large_untracked_files, report.ignored_untracked_files@),
    )
}

/// Writes a size for a person to read.
pub fn format_bytes(bytes: i64) -> (text: String)
    ensures
        text@ == bytes_text(bytes as int),
{
    if bytes >= MIB {
        let mut text = signed_text(bytes / MIB);
        text.append(" MiB");
        return text;
    }
    if bytes >= KIB {
        let mut text = signed_text(bytes / KIB);
        text.append(" KiB");
        return text;
    }
    let mut text = signed_text(bytes);
    text.append(" B");
    text
}

fn format_remaining(remaining: usize) -> (text: String)
    ensures
        text@ == decimal(remaining as int) + " more"@,
{
    let mut text = unsigned_text(remaining as u64);
    text.append(" more");
    text
}

fn format_list<E: Entry>(entries: &Vec<E>, max: usize) -> (text: String)
    ensures
        text@ == entries_list(entries@, max as int),
{
    let ghost shown = parts(entries@);
    let mut named: Vec<String> = Vec::new();
    let mut next: usize = 0;
    while next < entries.len() && next < max
        invariant
            next <= entries.len(),
            next <= max,
            shown == parts(entries@),
            texts(named@) == shown.take(next as int),
        decreases max - next,
    {
        let ghost before = texts(named@);
        named.push(entries[next].format_part());
        next += 1;
        assert(texts(named@) =~= before.push(shown[next - 1]));
        assert(texts(named@) =~= shown.take(next as int));
    }
    if entries.len() > max {
        named.push(format_remaining(entries.len() - max));
    }
    assert(texts(named@) =~= abridged(shown, max as int));
    join_with_commas(&named)
}

/// Warns of directories that the snapshot left out. There is nothing to warn of where no
/// directory was left out or the threshold is off.
pub fn format_large_untracked_warning(
    ignore_large_untracked_dirs: Option<i64>,
    report: &GhostSnapshotReport,
) -> (warning: Option<String>)
    ensures
        option_text(warning) == large_untracked_warning(
            ignore_large_untracked_dirs,
            report.large_untracked_dirs@,
        ),
        warning is Some == (ignore_large_untracked_dirs is Some
            && report.large_untracked_dirs@.len() > 0),
{
    if report.large_untracked_dirs.len() == 0 {
        return None;
    }
    match ignore_large_untracked_dirs {
        None => None,
        Some(threshold) => {
            let mut text =
                "Repository snapshot ignored large untracked directories (>= ".to_string();
            text.append(signed_text(threshold).as_str());
            text.append(" files): ");
            text.append(format_list(&report.large_untracked_dirs, MAX_DIRS).as_str());
            text.append(
                ". These directories are excluded from snapshots and undo cleanup. Adjust `ghost_snapshot.ignore_large_untracked_dirs` to change this behavior.",
            );
            Some(text)
        },
    }
}

/// Warns of files that the snapshot left out. There is nothing to warn of where no file was
/// left out or the threshold is off.
pub fn format_ignored_untracked_files_warning(
    ignore_large_untracked_files: Option<i64>,
    report: &GhostSnapshotReport,
) -> (warning: Option<String>)
    ensures
        option_text(warning) == ignored_files_warning(
            ignore_large_untracked_files,
            report.ignored_untracked_files@,
        ),
        warning is Some == (ignore_large_untracked_files is Some
            && report.ignored_untracked_files@.len() > 0),
{
    match ignore_large_untracked_files {
        None => None,
        Some(threshold) => {
            if report.ignored_untracked_files.len() == 0 {
                return None;
            }
            let mut text = "Repository snapshot ignored untracked files larger than ".to_string();
            text.append(format_bytes(threshold).as_str());
            text.append(": ");
            text.append(format_list(&report.ignored_untracked_files, MAX_FILES).as_str());
            text.append(
                ". These files are preserved during undo cleanup, but their contents are not captured in the snapshot. Adjust `ghost_snapshot.ignore_large_untracked_files` to change this behavior. To avoid this message in the future, update your `.gitignore`.",
            );
            Some(text)
        },
    }
}

/// Every warning about a report, that about directories first.
pub fn format_snapshot_warnings(
    ignore_large_untracked_files: Option<i64>,
    ignore_large_untracked_dirs: Option<i64>,
    report: &GhostSnapshotReport,
) -> (warnings: Vec<String>)
    ensures
        texts(warnings@) == snapshot_warnings(
            ignore_large_untracked_files,
            ignore_large_untracked_dirs,
            *report,
        ),
        warnings@.len() == (if ignore_large_untracked_dirs is Some
            && report.large_untracked_dirs@.len() > 0 {
            1int
        } else {
            0int
        }) + (if ignore_large_untracked_files is Some && report.ignored_untracked_files@.len() > 0 {
            1int
        } else {
            0int
        }),
{
    let mut warnings: Vec<String> = Vec::new();
    if let Some(message) = format_large_untracked_warning(ignore_large_untracked_dirs, report) {
        warnings.push(message);
    }
    if let Some(message) = format_ignored_untracked_files_warning(
        ignore_large_untracked_files,
        report,
    ) {
        warnings.push(message);
    }
    assert(texts(warnings@) =~= snapshot_warnings(
        ignore_large_untracked_files,
        ignore_large_untracked_dirs,
        *report,
    ));
    warnings
}

/// The warning about directories states the threshold that they passed.
pub proof fn warning_states_threshold(threshold: int, dirs: Seq<LargeUntrackedDir>)
    ensures
        contains_text(
            large_untracked_text(threshold, dirs),
            ">= "@ + decimal(threshold) + " files"@,
        ),
{
    let head = "Repository snapshot ignored large untracked directories (>= "@;
    let whole = large_untracked_text(threshold, dirs);
    let part = ">= "@ + decimal(threshold) + " files"@;
    reveal_strlit("Repository snapshot ignored large untracked directories (>= ");
    reveal_strlit(">= ");
    reveal_strlit(" files");
    reveal_strlit(" files): ");
    let at = head.len() - 3;
    assert(whole.subrange(at, at + part.len()) =~= part);
}

/// The warning about files states the size that they passed.
pub proof fn files_warning_states_threshold(threshold: int, files: Seq<IgnoredUntrackedFile>)
    ensures
        contains_text(
            ignored_files_text(threshold, files),
            "larger than "@ + bytes_text(threshold) + ": "@,
        ),
{
    let head = "Repository snapshot ignored untracked files larger than "@;
    let whole = ignored_files_text(threshold, files);
    let part = "larger than "@ + bytes_text(threshold) + ": "@;
    reveal_strlit("Repository snapshot ignored untracked files larger than ");
    reveal_strlit("larger than ");
    let at = head.len() - 12;
    assert(whole.subrange(at, at + part.len()) =~= part);
}

/// Of the directories that a warning does not name, only their number shows.
pub proof fn unnamed_dirs_only_count(
    threshold: int,
    some: Seq<LargeUntrackedDir>,
    other: Seq<LargeUntrackedDir>,
)
    requires
        some.len() == other.len(),
        forall|i: int| 0 <= i < some.len() && i < MAX_DIRS ==> some[i] == #[trigger] other[i],
    ensures
        large_untracked_text(threshold, some) == large_untracked_text(threshold, other),
{
    assert(abridged(parts(some), MAX_DIRS as int) =~= abridged(parts(other), MAX_DIRS as int));
}

/// Of the files that a warning does not name, only their number shows.
pub proof fn unnamed_files_only_count(
    threshold: int,
    some: Seq<IgnoredUntrackedFile>,
    other: Seq<IgnoredUntrackedFile>,
)
    requires
        some.len() == other.len(),
        forall|i: int| 0 <= i < some.len() && i < MAX_FILES ==> some[i] == #[trigger] other[i],
    ensures
        ignored_files_text(threshold, some) == ignored_files_text(threshold, other),
{
    assert(abridged(parts(some), MAX_FILES as int) =~= abridged(parts(other), MAX_FILES as int));
}

/// A warning names at most as many parts as it may, and one that counts the rest. With that
/// count no entry is left out of account.
pub proof fn every_entry_is_accounted_for(parts: Seq<Seq<char>>, max: int)
    requires
        max >= 0,
    ensures
        abridged(parts, max).len() <= max + 1,
        forall|i: int|
            0 <= i < parts.len() && i < max ==> #[trigger] abridged(parts, max)[i] == parts[i],
        parts.len() > max ==> abridged(parts, max).last() == decimal(parts.len() - max) + " more"@,
{
}

/// A threshold that is off keeps its warning back, whatever the report says.
pub proof fn disabled_thresholds_give_no_warning(report: GhostSnapshotReport)
    ensures
        snapshot_warnings(None, None, report).len() == 0,
        forall|files: Option<i64>| (#[trigger] snapshot_warnings(files, None, report)).len() <= 1,
        forall|dirs: Option<i64>| (#[trigger] snapshot_warnings(None, dirs, report)).len() <= 1,
{
}

/// A report of nothing gives no warning, whatever the thresholds.
pub proof fn empty_report_gives_no_warning(
    ignore_large_untracked_files: Option<i64>,
    ignore_large_untracked_dirs: Option<i64>,
    report: GhostSnapshotReport,
)
    requires
        report.large_untracked_dirs@.len() == 0,
        report.ignored_untracked_files@.len() == 0,
    ensures
        snapshot_warnings(
            ignore_large_untracked_files,
            ignore_large_untracked_dirs,
            report,
        ).len() == 0,
{
}

/// A size is rounded down to a whole number of its unit, and no unit is used where the next
/// larger one would do.
pub proof fn sizes_are_rounded_down(bytes: int)
    ensures
        bytes < KIB ==> bytes_text(bytes) == decimal(bytes) + " B"@,
        KIB <= bytes < MIB ==> exists|n: int|
            1 <= n < 1024 && n * 1024 <= bytes < (n + 1) * 1024 && bytes_text(bytes)
                == #[trigger] decimal(n) + " KiB"@,
        MIB <= bytes ==> exists|n: int|
            1 <= n && n * 1048576 <= bytes < (n + 1) * 1048576 && bytes_text(bytes)
                == #[trigger] decimal(n) + " MiB"@,
{
    if KIB <= bytes < MIB {
        let n = bytes / 1024;
        assert(bytes_text(bytes) == decimal(n) + " KiB"@);
    } else if MIB <= bytes {
        let n = bytes / 1048576;
        assert(bytes_text(bytes) == decimal(n) + " MiB"@);
    }
}

/// The unit that a size is written in, in bytes.
pub open spec fn size_unit(bytes: int) -> int {
    if bytes >= MIB {
        MIB as int
    } else if bytes >= KIB {
        KIB as int
    } else {
        1
    }
}

/// The size that a text states: its number times its unit, in bytes.
pub open spec fn stated_size(text: Seq<char>) -> int {
    if ends_with(text, " MiB"@) {
        decimal_value(text.take(text.len() - 4)) * MIB
    } else if ends_with(text, " KiB"@) {
        decimal_value(text.take(text.len() - 4)) * KIB
    } else {
        decimal_value(text.take(text.len() - 2))
    }
}

proof fn stated_size_of_text(bytes: int)
    ensures
        stated_size(bytes_text(bytes)) == bytes - bytes % size_unit(bytes),
{
    reveal_strlit(" MiB");
    reveal_strlit(" KiB");
    reveal_strlit(" B");
    let text = bytes_text(bytes);
    let number = bytes / size_unit(bytes);
    decimal_reads_back(number);
    if bytes >= KIB {
        let unit = if bytes >= MIB {
            " MiB"@
        } else {
            " KiB"@
        };
        assert(text == decimal(number) + unit);
        assert(text.take(text.len() - 4) =~= decimal(number));
        assert(text.skip(text.len() - 4) =~= unit);
        assert(" MiB"@[1] != " KiB"@[1]);
    } else {
        assert(text == decimal(number) + " B"@);
        assert(text.take(text.len() - 2) =~= decimal(number));
        assert(text[text.len() - 2] == ' ');
        if text.len() >= 4 {
            assert(text.skip(text.len() - 4)[2] == ' ');
        }
    }
}

/// The size that is shown never overstates the true one, and falls short of it by less than one
/// of its units.
pub proof fn shown_size_never_overstates(bytes: int)
    ensures
        stated_size(bytes_text(bytes)) <= bytes < stated_size(bytes_text(bytes)) + size_unit(bytes),
{
    stated_size_of_text(bytes);
}

/// A larger size never shows as a smaller one.
pub proof fn shown_sizes_keep_order(some: int, other: int)
    requires
        some <= other,
    ensures
        stated_size(bytes_text(some)) <= stated_size(bytes_text(other)),
{
    stated_size_of_text(some);
    stated_size_of_text(other);
}

/// The size that is shown shows as itself.
pub proof fn shown_size_shows_as_itself(bytes: int)
    ensures
        bytes_text(stated_size(bytes_text(bytes))) == bytes_text(bytes),
{
    stated_size_of_text(bytes);
}

/// A number of bytes, of whole KiB and of whole MiB each shows as that number of its unit. What
/// is left over is not shown, and a KiB is 1024 bytes, a MiB 1024 KiB.
pub proof fn sizes_show_their_whole_units(n: int, left: int)
    ensures
        n < 1024 ==> bytes_text(n) == decimal(n) + " B"@,
        1 <= n < 1024 && 0 <= left < 1024 ==> bytes_text(n * 1024 + left) == decimal(n) + " KiB"@,
        1 <= n && 0 <= left < 1048576 ==> bytes_text(n * 1048576 + left) == decimal(n) + " MiB"@,
{
    if 1 <= n < 1024 && 0 <= left < 1024 {
        assert((n * 1024 + left) / 1024 == n);
    }
    if 1 <= n && 0 <= left < 1048576 {
        assert((n * 1048576 + left) / 1048576 == n);
    }
}

/// There is a warning about directories exactly where a threshold is set and a directory was
/// left out. It states the threshold, names the first three directories, each with the number of
/// its files, and counts the others where there are others.
pub proof fn directories_warning_says_what_was_left_out(
    warning: Option<String>,
    threshold: Option<i64>,
    dirs: Seq<LargeUntrackedDir>,
    named: Seq<Seq<char>>,
)
    requires
        option_text(warning) == large_untracked_warning(threshold, dirs),
        named.len() == (if dirs.len() > 3 {
            4
        } else {
            dirs.len() as int
        }),
        forall|i: int|
            0 <= i < dirs.len() && i < 3 ==> #[trigger] named[i] == path_text(dirs[i].path@)
                + " ("@ + decimal(dirs[i].file_count as int) + " files)"@,
        dirs.len() > 3 ==> named[3] == decimal(dirs.len() - 3) + " more"@,
    ensures
        warning is Some == (threshold is Some && dirs.len() > 0),
        warning matches Some(text) ==> text@
            == "Repository snapshot ignored large untracked directories (>= "@ + decimal(
            threshold->0 as int,
        ) + " files): "@ + comma_list(named)
            + ". These directories are excluded from snapshots and undo cleanup. Adjust `ghost_snapshot.ignore_large_untracked_dirs` to change this behavior."@,
{
    assert(abridged(parts(dirs), MAX_DIRS as int) =~= named);
}

/// There is a warning about files exactly where a threshold is set and a file was left out. It
/// states the threshold, names the first three files, each with its size, and counts the others
/// where there are others.
pub proof fn files_warning_says_what_was_left_out(
    warning: Option<String>,
    threshold: Option<i64>,
    files: Seq<IgnoredUntrackedFile>,
    named: Seq<Seq<char>>,
)
    requires
        option_text(warning) == ignored_files_warning(threshold, files),
        named.len() == (if files.len() > 3 {
            4
        } else {
            files.len() as int
        }),
        forall|i: int|
            0 <= i < files.len() && i < 3 ==> #[trigger] named[i] == path_text(files[i].path@)
                + " ("@ + bytes_text(files[i].byte_size as int) + ")"@,
        files.len() > 3 ==> named[3] == decimal(files.len() - 3) + " more"@,
    ensures
        warning is Some == (threshold is Some && files.len() > 0),
        warning matches Some(text) ==> text@
            == "Repository snapshot ignored untracked files larger than "@ + bytes_text(
            threshold->0 as int,
        ) + ": "@ + comma_list(named)
            + ". These files are preserved during undo cleanup, but their contents are not captured in the snapshot. Adjust `ghost_snapshot.ignore_large_untracked_files` to change this behavior. To avoid this message in the future, update your `.gitignore`."@,
{
    assert(abridged(parts(files), MAX_FILES as int) =~= named);
}

/// Each of the two warnings is given wherever it is called for, whatever the other one is about:
/// that about directories as the first, that about files as the last, and there is no third.
pub proof fn each_warning_is_given_where_it_is_called_for(
    warnings: Seq<String>,
    files_threshold: Option<i64>,
    dirs_threshold: Option<i64>,
    report: GhostSnapshotReport,
    about_dirs: Option<String>,
    about_files: Option<String>,
)
    requires
        texts(warnings) == snapshot_warnings(files_threshold, dirs_threshold, report),
        option_text(about_dirs) == large_untracked_warning(
            dirs_threshold,
            report.large_untracked_dirs@,
        ),
        option_text(about_files) == ignored_files_warning(
            files_threshold,
            report.ignored_untracked_files@,
        ),
    ensures
        warnings.len() == (if dirs_threshold is Some && report.large_untracked_dirs@.len() > 0 {
            1int
        } else {
            0int
        }) + (if files_threshold is Some && report.ignored_untracked_files@.len() > 0 {
            1int
        } else {
            0int
        }),
        dirs_threshold is Some && report.large_untracked_dirs@.len() > 0 ==> about_dirs is Some
            && warnings[0]@ == about_dirs->0@,
        files_threshold is Some && report.ignored_untracked_files@.len() > 0 ==> about_files is Some
            && warnings[warnings.len() - 1]@ == about_files->0@,
{
    texts_go_one_for_one(
        warnings,
        snapshot_warnings(files_threshold, dirs_threshold, report),
    );
}

} // verus!
