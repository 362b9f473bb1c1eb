//! File paths as the system knows them, and how they and other raw bytes show as text.

use vstd::prelude::*;
use vstd::string::*;
use vstd::utf8::*;

verus! {

/// What stands in a text for what could not be decoded.
pub open spec fn replacement() -> char {
    '\u{FFFD}'
}

/// What `String::from_utf8_lossy` makes of bytes that are not valid UTF-8.
pub uninterp spec fn repaired_text(bytes: Seq<u8>) -> Seq<char>;

/// Bytes read as UTF-8: decoded where they are valid, repaired where they are not.
pub open spec fn lossy_text(bytes: Seq<u8>) -> Seq<char> {
    if valid_utf8(bytes) {
        decode_utf8(bytes)
    } else {
        repaired_text(bytes)
    }
}

/// Whether a 16-bit unit is the first half of a surrogate pair.
pub open spec fn is_high_surrogate(unit: u16) -> bool {
    0xD800 <= unit <= 0xDBFF
}

/// Whether a 16-bit unit is the second half of a surrogate pair.
pub open spec fn is_low_surrogate(unit: u16) -> bool {
    0xDC00 <= unit <= 0xDFFF
}

/// 16-bit units read as UTF-16, with one replacement character for each surrogate that is in no
/// pair.
pub open spec fn wide_text(units: Seq<u16>) -> Seq<char>
    decreases units.len(),
{
    if units.len() == 0 {
        Seq::empty()
    } else if !is_high_surrogate(units[0]) && !is_low_surrogate(units[0]) {
        seq![units[0] as char] + wide_text(units.skip(1))
    } else if is_high_surrogate(units[0]) && units.len() > 1 && is_low_surrogate(units[1]) {
        seq![(0x10000 + (units[0] - 0xD800) * 0x400 + (units[1] - 0xDC00)) as char] + wide_text(
            units.skip(2),
        )
    } else {
        seq![replacement()] + wide_text(units.skip(1))
    }
}

/// Calls `String::from_utf8_lossy`. Valid UTF-8 comes back as the characters that it encodes.
/// Of other bytes the contract says that the text is a function of them and that the
/// replacement character U+FFFD occurs in it; where it occurs is left unsaid.
#[verifier::external_body]
pub(crate) fn text_of_bytes(bytes: &[u8]) -> (text: String)
    ensures
        valid_utf8(bytes@) ==> text@ == decode_utf8(bytes@),
        !valid_utf8(bytes@) ==> text@ == repaired_text(bytes@),
        !valid_utf8(bytes@) ==> text@.contains(replacement()),
{
    String::from_utf8_lossy(bytes).into_owned()
}

/// Calls `String::from_utf16_lossy`. The text is that which the units encode, with one
/// replacement character U+FFFD for each surrogate that is in no pair.
#[verifier::external_body]
fn text_of_units(units: &[u16]) -> (text: String)
    ensures
        text@ == wide_text(units@),
{
    String::from_utf16_lossy(units)
}

/// A path of the file system, in the units that the system knows it by: bytes on most systems,
/// 16-bit units on Windows.
#[derive(Debug, PartialEq, Eq)]
pub enum FilePath {
    Bytes(Vec<u8>),
    Wide(Vec<u16>),
}

/// A path as the sequence of its units.
pub ghost enum PathView {
    Bytes(Seq<u8>),
    Wide(Seq<u16>),
}

impl View for FilePath {
    type V = PathView;

    open spec fn view(&self) -> PathView {
        match *self {
            FilePath::Bytes(bytes) => PathView::Bytes(bytes@),
            FilePath::Wide(units) => PathView::Wide(units@),
        }
    }
}

/// A path as it shows: bytes are read as UTF-8, 16-bit units as UTF-16.
pub open spec fn path_text(path: PathView) -> Seq<char> {
    match path {
        PathView::Bytes(bytes) => lossy_text(bytes),
        PathView::Wide(units) => wide_text(units),
    }
}

/// Each path as the sequence of its units.
pub open spec fn path_views(paths: Seq<FilePath>) -> Seq<PathView> {
    paths.map_values(|path: FilePath| path@)
}

/// A path as the sequence of its units, where there is one.
pub open spec fn option_path(path: Option<FilePath>) -> Option<PathView> {
    match path {
        Some(path) => Some(path@),
        None => None,
    }
}

impl Clone for FilePath {
    fn clone(&self) -> (copy: FilePath)
        ensures
            copy@ == self@,
    {
        match self {
            FilePath::Bytes(bytes) => {
                let copy = bytes.clone();
                assert(copy@ =~= bytes@);
                FilePath::Bytes(copy)
            },
            FilePath::Wide(units) => {
                let copy = units.clone();
                assert(copy@ =~= units@);
                FilePath::Wide(copy)
            },
        }
    }
}

pub(crate) fn clone_paths(paths: &Vec<FilePath>) -> (copy: Vec<FilePath>)
    ensures
        path_views(copy@) == path_views(paths@),
        copy@.len() == paths@.len(),
        forall|i: int| 0 <= i < paths@.len() ==> (#[trigger] copy@[i])@ == paths@[i]@,
{
    let copy = paths.clone();
    assert(path_views(copy@) =~= path_views(paths@));
    copy
}

impl FilePath {
    /// The path as it is shown to a person or put on a command line.
    pub fn to_text(&self) -> (text: String)
        ensures
            text@ == path_text(self@),
            *self matches FilePath::Bytes(bytes) ==> valid_utf8(bytes@) ==> text@ == decode_utf8(
                bytes@,
            ),
            *self matches FilePath::Bytes(bytes) ==> !valid_utf8(bytes@) ==> text@
                == repaired_text(bytes@),
            self@ matches PathView::Bytes(bytes) ==> !valid_utf8(bytes) ==> text@.contains(
                replacement(),
            ),
    {
        match self {
            FilePath::Bytes(bytes) => text_of_bytes(bytes.as_slice()),
            FilePath::Wide(units) => text_of_units(units.as_slice()),
        }
    }

    /// The path that is written as `text` in UTF-8. It shows as that text.
    pub fn from_text(text: &str) -> (path: FilePath)
        ensures
            path@ == PathView::Bytes(encode_utf8(text@)),
            path_text(path@) == text@,
    {
        proof {
            encode_utf8_valid_utf8(text@);
            encode_utf8_decode_utf8(text@);
        }
        FilePath::Bytes(text.as_bytes_vec())
    }
}

/// A surrogate that is in no pair shows as one replacement character, and the units around it
/// show as they do without it.
pub proof fn unpaired_surrogate_shows_once(before: Seq<u16>, surrogate: u16, after: Seq<u16>)
    requires
        is_high_surrogate(surrogate) || is_low_surrogate(surrogate),
        before.len() > 0 && is_low_surrogate(surrogate) ==> !is_high_surrogate(before.last()),
        after.len() > 0 && is_high_surrogate(surrogate) ==> !is_low_surrogate(after[0]),
    ensures
        wide_text(before.push(surrogate) + after) == wide_text(before).push(replacement())
            + wide_text(after),
    decreases before.len(),
{
    let all = before.push(surrogate) + after;
    if before.len() == 0 {
        assert(all.skip(1) =~= after);
        assert(wide_text(all) =~= wide_text(before).push(replacement()) + wide_text(after));
    } else {
        let taken: int = if is_high_surrogate(before[0]) && before.len() > 1 && is_low_surrogate(
            before[1],
        ) {
            2
        } else {
            1
        };
        unpaired_surrogate_shows_once(before.skip(taken), surrogate, after);
        assert(all.skip(taken) =~= before.skip(taken).push(surrogate) + after);
        assert(wide_text(all) =~= wide_text(before).push(replacement()) + wide_text(after));
    }
}

/// Nothing of a path is lost in its view: two paths with one view hold the same units.
pub proof fn view_keeps_every_unit(path: FilePath)
    ensures
        path matches FilePath::Bytes(bytes) ==> path@ == PathView::Bytes(bytes@),
        path matches FilePath::Wide(units) ==> path@ == PathView::Wide(units@),
{
}

/// Paths and their views go one for one.
pub proof fn path_views_go_one_for_one(paths: Seq<FilePath>, views: Seq<PathView>)
    requires
        path_views(paths) == views,
    ensures
        paths.len() == views.len(),
        forall|i: int| 0 <= i < paths.len() ==> (#[trigger] paths[i])@ == views[i],
{
    assert forall|i: int| 0 <= i < paths.len() implies (#[trigger] paths[i])@ == views[i] by {
        assert(path_views(paths)[i] == paths[i]@);
    }
}

/// A path of bytes that encode a text shows as that text, and a path of 16-bit units shows unit
/// by unit: one that is no surrogate as the character with its number, two that are a pair as
/// the character that they stand for, and any other as the replacement character.
pub proof fn paths_show_unit_by_unit(text: Seq<char>, first: u16, second: u16, rest: Seq<u16>)
    ensures
        path_text(PathView::Bytes(encode_utf8(text))) == text,
        path_text(PathView::Wide(Seq::empty())).len() == 0,
        !(0xD800 <= first <= 0xDFFF) ==> path_text(PathView::Wide(seq![first] + rest)) == seq![
            first as char,
        ] + path_text(PathView::Wide(rest)),
        0xD800 <= first <= 0xDBFF && 0xDC00 <= second <= 0xDFFF ==> path_text(
            PathView::Wide(seq![first, second] + rest),
        ) == seq![(0x10000 + (first - 0xD800) * 0x400 + (second - 0xDC00)) as char] + path_text(
            PathView::Wide(rest),
        ),
        0xDC00 <= first <= 0xDFFF ==> path_text(PathView::Wide(seq![first] + rest)) == seq![
            '\u{FFFD}',
        ] + path_text(PathView::Wide(rest)),
        0xD800 <= first <= 0xDBFF && (rest.len() == 0 || !(0xDC00 <= rest[0] <= 0xDFFF))
            ==> path_text(PathView::Wide(seq![first] + rest)) == seq!['\u{FFFD}'] + path_text(
            PathView::Wide(rest),
        ),
{
    encode_utf8_valid_utf8(text);
    encode_utf8_decode_utf8(text);
    assert((seq![first] + rest).skip(1) =~= rest);
    assert((seq![first, second] + rest).skip(2) =~= rest);
}

/// Bytes that are valid UTF-8 read as what they encode, and others as they are repaired, in a
/// path as elsewhere.
pub proof fn bytes_read_as_utf8(bytes: Seq<u8>)
    ensures
        valid_utf8(bytes) ==> lossy_text(bytes) == decode_utf8(bytes),
        !valid_utf8(bytes) ==> lossy_text(bytes) == repaired_text(bytes),
        path_text(PathView::Bytes(bytes)) == lossy_text(bytes),
{
}

} // verus!
