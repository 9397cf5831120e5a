//! Enumeration of the host's drives, and lookup of one drive by its letter.
//!
//! Every candidate volume of a [`Survey`] has an outcome: a drive, or nothing
//! where the candidate is skipped. The listing is the drives among the
//! outcomes, in the order of the candidates.

use vstd::prelude::*;
use vstd::string::StringExecFns;
use super::{Drive, DriveView, Drives};
use super::capacity::{bytes_to_gb, gigabytes, wide_bytes_to_gb, CapacityReading};
use super::laws::{
    lemma_listed_drive_is_consistent, lemma_listed_drive_was_readable, lemma_lookup_finds_first,
    lemma_lookup_needs_drive_letters, stands_for_readable_candidate,
};
use super::platform::Platform;
use super::survey::{
    entries_of, Reading, RootProbe, Survey, SurveyView, VolumeEntry, VolumeEntryView,
};

verus! {

/// `String::push` of the standard library appends one character to the end
/// of the string and changes nothing else of it.
pub assume_specification[ String::push ](s: &mut String, ch: char)
    ensures
        final(s)@ == old(s)@.push(ch),
;

/// Number of drive letters: `A` to `Z`.
pub const DRIVE_LETTERS: u8 = 26;

/// The drive letter at a position of the alphabet: `A` at 0, `Z` at 25.
pub open spec fn spec_drive_letter(index: int) -> char {
    ('A' as u8 + index) as char
}

/// The root path of a drive letter: the letter, a colon, a backslash.
pub open spec fn spec_root_path(letter: char) -> Seq<char> {
    seq![letter, ':', '\\']
}

/// The label of a drive letter: `Drive (C:)` for `C`.
pub open spec fn spec_root_label(letter: char) -> Seq<char> {
    seq!['D', 'r', 'i', 'v', 'e', ' ', '(', letter, ':', ')']
}

/// The drive that a candidate path gives. Without metadata there is none.
/// Otherwise total space is the metadata's length and free space what the
/// capacity query reported as free, both in whole gigabytes; the drive is
/// not removable.
pub open spec fn spec_create_drive(
    path: Seq<char>,
    name: Seq<char>,
    os_type: Seq<char>,
    fs_type: Seq<char>,
    drive_letter: Option<char>,
    reading: Reading,
) -> Option<DriveView> {
    match reading.metadata_len {
        None => None,
        Some(len) => Some(
            DriveView {
                name,
                path,
                free_space_gb: reading.capacity.spec_free_gb(),
                total_space_gb: gigabytes(len as nat) as u64,
                file_system: fs_type,
                os: os_type,
                is_removable: false,
                drive_letter,
            },
        ),
    }
}

/// The outcome of the drive root at a position of the alphabet: a drive
/// where the root was probed, exists and has readable metadata.
pub open spec fn root_outcome(probes: Seq<RootProbe>, index: int) -> Option<DriveView> {
    let letter = spec_drive_letter(index);
    if 0 <= index < probes.len() && probes[index].exists {
        spec_create_drive(
            spec_root_path(letter),
            spec_root_label(letter),
            Platform::Windows.os_tag(),
            Platform::Windows.file_system_tag(),
            Some(letter),
            probes[index].reading,
        )
    } else {
        None
    }
}

/// The outcome of one entry of a volume directory: a drive where the entry
/// has a path with readable metadata. The drive is named after the entry and
/// carries no letter.
pub open spec fn entry_outcome(platform: Platform, entry: VolumeEntryView) -> Option<DriveView> {
    match entry.path {
        None => None,
        Some(path) => spec_create_drive(
            path,
            entry.name,
            platform.os_tag(),
            platform.file_system_tag(),
            None,
            entry.reading,
        ),
    }
}

/// The outcomes of the twenty-six drive roots, in alphabetical order.
pub open spec fn root_outcomes(probes: Seq<RootProbe>) -> Seq<Option<DriveView>> {
    Seq::new(DRIVE_LETTERS as nat, |index: int| root_outcome(probes, index))
}

/// The outcomes of the entries of a volume directory, in their order.
pub open spec fn entry_outcomes(platform: Platform, entries: Seq<VolumeEntryView>) -> Seq<
    Option<DriveView>,
> {
    Seq::new(entries.len(), |index: int| entry_outcome(platform, entries[index]))
}

/// The outcome of every candidate of a survey, in the order of enumeration.
pub open spec fn outcomes(survey: SurveyView) -> Seq<Option<DriveView>> {
    match survey {
        SurveyView::Windows(probes) => root_outcomes(probes),
        SurveyView::Linux(entries) => entry_outcomes(Platform::Linux, entries),
        SurveyView::MacOs(entries) => entry_outcomes(Platform::MacOs, entries),
    }
}

/// Keeps an outcome as it is: the selector by which drives are picked out of
/// outcomes.
pub open spec fn keep() -> spec_fn(Option<DriveView>) -> Option<DriveView> {
    |outcome: Option<DriveView>| outcome
}

/// The drives among a sequence of outcomes, in their order.
pub open spec fn listed(outcomes: Seq<Option<DriveView>>) -> Seq<DriveView> {
    outcomes.filter_map(keep())
}

/// The drives of a survey: one for each candidate that is not skipped, in
/// the order of enumeration.
pub open spec fn listing(survey: SurveyView) -> Seq<DriveView> {
    listed(outcomes(survey))
}

/// The upper-case form of an ASCII letter; any other character unchanged.
pub open spec fn ascii_uppercase(c: char) -> char {
    if 'a' <= c <= 'z' {
        ((c as u8) - 32) as char
    } else {
        c
    }
}

/// The first drive of a sequence that carries the given letter.
pub open spec fn first_with_letter(drives: Seq<DriveView>, letter: char) -> Option<DriveView>
    decreases drives.len(),
{
    if drives.len() == 0 {
        None
    } else if drives.first().drive_letter == Some(letter) {
        Some(drives.first())
    } else {
        first_with_letter(drives.drop_first(), letter)
    }
}

/// The drive that an identifier names among `drives`: the first one whose
/// letter is the identifier's first character in upper case. An empty
/// identifier names none.
pub open spec fn lookup(drives: Seq<DriveView>, identifier: Seq<char>) -> Option<DriveView> {
    if identifier.len() == 0 {
        None
    } else {
        first_with_letter(drives, ascii_uppercase(identifier[0]))
    }
}

/// Whether an identifier names none of `drives`: it is empty, or no drive
/// carries its first character in upper case as its letter.
pub open spec fn names_no_drive(drives: Seq<DriveView>, identifier: Seq<char>) -> bool {
    ||| identifier.len() == 0
    ||| forall|position: int|
        0 <= position < drives.len() ==> (#[trigger] drives[position]).drive_letter != Some(
            ascii_uppercase(identifier[0]),
        )
}

/// Free bytes that a capacity query reported; zero where the query failed.
pub fn get_available_space(capacity: &CapacityReading) -> (bytes: u128)
    ensures
        bytes == capacity.spec_free_bytes(),
{
    capacity.free_bytes()
}

impl Drive {
    /// A drive with exactly the given fields.
    pub fn new(
        name: String,
        path: String,
        free_space_gb: u64,
        total_space_gb: u64,
        file_system: String,
        os: String,
        is_removable: bool,
        drive_letter: Option<char>,
    ) -> (drive: Self)
        ensures
            drive == (Drive {
                name,
                path,
                free_space_gb,
                total_space_gb,
                file_system,
                os,
                is_removable,
                drive_letter,
            }),
    {
        Drive {
            name,
            path,
            free_space_gb,
            total_space_gb,
            file_system,
            os,
            is_removable,
            drive_letter,
        }
    }
}

/// Turns a candidate path and the host's answers about it into a drive.
///
/// A candidate whose metadata could not be read is dropped: the result is
/// `None`, whatever the reason was. Otherwise the drive's total space is the
/// metadata's length and its free space what the capacity query reported,
/// both in whole gigabytes. A failed capacity query leaves the drive in
/// place with zero free space.
pub fn create_drive(
    path: String,
    name: String,
    os_type: &str,
    fs_type: &str,
    drive_letter: Option<char>,
    reading: &Reading,
) -> (drive: Option<Drive>)
    ensures
        drive.deep_view() == spec_create_drive(
            path@,
            name@,
            os_type@,
            fs_type@,
            drive_letter,
            *reading,
        ),
{
    match reading.metadata_len {
        Some(total_space) => {
            let free_space: u128 = get_available_space(&reading.capacity);
            Some(
                Drive::new(
                    name,
                    path,
                    wide_bytes_to_gb(free_space),
                    bytes_to_gb(total_space),
                    fs_type.to_string(),
                    os_type.to_string(),
                    false,
                    drive_letter,
                ),
            )
        },
        None => None,
    }
}

/// The drive letter at a position of the alphabet.
fn drive_letter_at(index: u8) -> (letter: char)
    requires
        index < DRIVE_LETTERS,
    ensures
        letter == spec_drive_letter(index as int),
        'A' <= letter <= 'Z',
{
    let code: u8 = ('A' as u8) + index;
    code as char
}

/// The root path of a drive letter, such as `C:\`.
pub fn root_path(letter: char) -> (path: String)
    ensures
        path@ == spec_root_path(letter),
{
    let mut path = String::new();
    path.push(letter);
    path.push(':');
    path.push('\\');
    assert(path@ =~= spec_root_path(letter));
    path
}

/// The label of a drive letter, such as `Drive (C:)`.
pub fn root_label(letter: char) -> (label: String)
    ensures
        label@ == spec_root_label(letter),
{
    let mut label = String::from_str("Drive (");
    label.push(letter);
    label.append(":)");
    proof {
        reveal_strlit("Drive (");
        reveal_strlit(":)");
        assert(label@ =~= spec_root_label(letter));
    }
    label
}

/// The twenty-six root paths to probe on Windows, `A:\` to `Z:\`, in
/// alphabetical order.
pub fn drive_root_paths() -> (paths: Vec<String>)
    ensures
        paths.len() == DRIVE_LETTERS,
        forall|index: int|
            0 <= index < DRIVE_LETTERS ==> (#[trigger] paths[index])@ == spec_root_path(
                spec_drive_letter(index),
            ),
{
    let mut paths: Vec<String> = Vec::new();
    let mut index: u8 = 0;
    while index < DRIVE_LETTERS
        invariant
            index <= DRIVE_LETTERS,
            paths.len() == index,
            forall|k: int|
                0 <= k < index ==> (#[trigger] paths[k])@ == spec_root_path(spec_drive_letter(k)),
        decreases DRIVE_LETTERS - index,
    {
        paths.push(root_path(drive_letter_at(index)));
        index = index + 1;
    }
    paths
}

/// The drives of Windows: one for each drive root that exists and has
/// readable metadata, in alphabetical order.
fn list_roots(probes: &Vec<RootProbe>) -> (drives: Vec<Drive>)
    ensures
        drives.deep_view() == listed(root_outcomes(probes@)),
{
    let ghost all = root_outcomes(probes@);
    let mut drives: Vec<Drive> = Vec::new();
    let mut index: u8 = 0;
    assert(drives.deep_view() =~= listed(all.take(0)));
    while index < DRIVE_LETTERS
        invariant
            index <= DRIVE_LETTERS,
            all == root_outcomes(probes@),
            drives.deep_view() == listed(all.take(index as int)),
        decreases DRIVE_LETTERS - index,
    {
        let ghost before = drives.deep_view();
        proof {
            all.lemma_filter_map_take_succ(keep(), index as int);
        }
        if (index as usize) < probes.len() && probes[index as usize].exists {
            let letter = drive_letter_at(index);
            let platform = Platform::Windows;
            let found = create_drive(
                root_path(letter),
                root_label(letter),
                platform.os_name(),
                platform.file_system(),
                Some(letter),
                &probes[index as usize].reading,
            );
            match found {
                Some(drive) => {
                    drives.push(drive);
                    assert(drives.deep_view() =~= before.push(drive@));
                },
                None => {},
            }
        }
        index = index + 1;
    }
    assert(all.take(DRIVE_LETTERS as int) =~= all);
    drives
}

/// The drives of a volume directory: one for each entry that has a path with
/// readable metadata, in the order of the entries.
fn list_entries(platform: Platform, entries: &Vec<VolumeEntry>) -> (drives: Vec<Drive>)
    ensures
        drives.deep_view() == listed(entry_outcomes(platform, entries.deep_view())),
{
    let ghost all = entry_outcomes(platform, entries.deep_view());
    let mut drives: Vec<Drive> = Vec::new();
    let mut index: usize = 0;
    assert(drives.deep_view() =~= listed(all.take(0)));
    while index < entries.len()
        invariant
            index <= entries.len(),
            all == entry_outcomes(platform, entries.deep_view()),
            drives.deep_view() == listed(all.take(index as int)),
        decreases entries.len() - index,
    {
        let ghost before = drives.deep_view();
        proof {
            all.lemma_filter_map_take_succ(keep(), index as int);
        }
        let entry = &entries[index];
        match &entry.path {
            Some(path) => {
                let found = create_drive(
                    path.clone(),
                    entry.name.clone(),
                    platform.os_name(),
                    platform.file_system(),
                    None,
                    &entry.reading,
                );
                match found {
                    Some(drive) => {
                        drives.push(drive);
                        assert(drives.deep_view() =~= before.push(drive@));
                    },
                    None => {},
                }
            },
            None => {},
        }
        index = index + 1;
    }
    assert(all.take(entries.len() as int) =~= all);
    drives
}

/// The drives of a volume directory that may not have been readable. An
/// unreadable directory gives no drives, and no error.
fn list_directory(platform: Platform, directory: &Option<Vec<VolumeEntry>>) -> (drives: Vec<
    Drive,
>)
    ensures
        drives.deep_view() == listed(entry_outcomes(platform, entries_of(*directory))),
{
    match directory {
        Some(entries) => list_entries(platform, entries),
        None => {
            let drives: Vec<Drive> = Vec::new();
            assert(drives.deep_view() =~= listed(
                entry_outcomes(platform, Seq::<VolumeEntryView>::empty()),
            ));
            drives
        },
    }
}

/// Lists the drives that a survey of the host shows.
///
/// On Windows the candidates are the drive roots `A:\` to `Z:\`; a root
/// gives a drive where it exists. Elsewhere the candidates are the entries
/// of the volume directory; an entry gives a drive where it has a path. In
/// both cases a candidate whose metadata could not be read is left out
/// without a trace. The drives come in the order of the candidates. There is
/// always an answer: where nothing could be read, it is the empty list.
pub fn list_system_drives(survey: &Survey) -> (drives: Vec<Drive>)
    ensures
        drives.deep_view() == listing(survey@),
        forall|position: int|
            0 <= position < drives.len() ==> stands_for_readable_candidate(
                survey@,
                (#[trigger] drives[position])@,
            ),
        forall|position: int|
            0 <= position < drives.len() ==> (#[trigger] drives[position])@.is_consistent(),
{
    let drives = match survey {
        Survey::Windows(probes) => list_roots(probes),
        Survey::Linux(directory) => list_directory(Platform::Linux, directory),
        Survey::MacOs(directory) => list_directory(Platform::MacOs, directory),
    };
    proof {
        assert forall|position: int| 0 <= position < drives.len() implies {
            &&& stands_for_readable_candidate(survey@, (#[trigger] drives[position])@)
            &&& drives[position]@.is_consistent()
        } by {
            assert(drives[position]@ == drives.deep_view()[position]);
            lemma_listed_drive_was_readable(survey@, position);
            lemma_listed_drive_is_consistent(survey@, position);
        }
    }
    drives
}

/// The upper-case form of an ASCII letter; any other character unchanged.
pub fn to_ascii_uppercase(c: char) -> (upper: char)
    ensures
        upper == ascii_uppercase(c),
{
    if 'a' <= c && c <= 'z' {
        let code: u8 = c as u8;
        (code - 32) as char
    } else {
        c
    }
}

impl Drives {
    /// An empty collection.
    pub fn new() -> (drives: Self)
        ensures
            drives@ == Seq::<DriveView>::empty(),
    {
        let drives = Drives { drives: Vec::new() };
        assert(drives@ =~= Seq::<DriveView>::empty());
        drives
    }

    /// The drives that a survey of the host shows, in the order of
    /// enumeration. There is always an answer: a host without readable
    /// volumes gives an empty collection.
    pub fn list(survey: &Survey) -> (drives: Self)
        ensures
            drives@ == listing(survey@),
            forall|position: int|
                0 <= position < drives@.len() ==> stands_for_readable_candidate(
                    survey@,
                    #[trigger] drives@[position],
                ),
            forall|position: int|
                0 <= position < drives@.len() ==> (#[trigger] drives@[position]).is_consistent(),
    {
        let drives = list_system_drives(survey);
        proof {
            assert forall|position: int| 0 <= position < drives.len() implies #[trigger] drives[position]@
                == drives.deep_view()[position] by {}
        }
        Drives { drives }
    }

    /// The first drive of the collection that an identifier names, taken out
    /// of the collection.
    ///
    /// The identifier's first character counts, in upper case; the rest of it
    /// is not looked at. The result is `None` where the identifier is empty
    /// and where no drive carries that letter.
    pub fn find(self, identifier: &str) -> (found: Option<Drive>)
        ensures
            found.deep_view() == lookup(self@, identifier@),
            found is None <==> names_no_drive(self@, identifier@),
            found matches Some(drive) ==> drive.drive_letter == Some(
                ascii_uppercase(identifier@[0]),
            ),
    {
        broadcast use vstd::string::group_string_axioms;

        proof {
            lemma_lookup_finds_first(self@, identifier@);
        }

        let mut chars = identifier.chars();
        match chars.next() {
            None => None,
            Some(first) => {
                let letter = to_ascii_uppercase(first);
                let mut drives = self.drives;
                let ghost all = drives.deep_view();
                let mut index: usize = 0;
                assert(all.skip(0) =~= all);
                while index < drives.len()
                    invariant
                        index <= drives.len(),
                        all == drives.deep_view(),
                        identifier@.len() > 0,
                        letter == ascii_uppercase(identifier@[0]),
                        lookup(self@, identifier@) == first_with_letter(all, letter),
                        first_with_letter(all, letter) == first_with_letter(
                            all.skip(index as int),
                            letter,
                        ),
                    decreases drives.len() - index,
                {
                    let here = match drives[index].drive_letter {
                        Some(l) => l == letter,
                        None => false,
                    };
                    assert(all.skip(index as int).first() == drives[index as int]@);
                    if here {
                        let drive = drives.remove(index);
                        proof {
                            lemma_lookup_finds_first(self@, identifier@);
                        }
                        return Some(drive);
                    }
                    assert(all.skip(index as int).drop_first() =~= all.skip(index + 1));
                    index = index + 1;
                }
                None
            },
        }
    }

    /// Looks a drive up by its letter in a survey of the host.
    ///
    /// The survey is enumerated in full, and the first drive whose letter is
    /// the identifier's first character in upper case is returned. The
    /// result is `None` where the identifier is empty, where no drive
    /// carries that letter, and on every host but Windows, whose drives
    /// alone have letters.
    pub fn get(survey: &Survey, drive_letter: &str) -> (found: Option<Drive>)
        ensures
            found.deep_view() == lookup(listing(survey@), drive_letter@),
            found is None <==> names_no_drive(listing(survey@), drive_letter@),
            drive_letter@.len() == 0 ==> found is None,
            !survey@.platform().spec_has_drive_letters() ==> found is None,
            found matches Some(drive) ==> drive.drive_letter == Some(
                ascii_uppercase(drive_letter@[0]),
            ),
    {
        proof {
            if !survey@.platform().spec_has_drive_letters() {
                lemma_lookup_needs_drive_letters(survey@, drive_letter@);
            }
        }
        let drives = Self::list(survey);
        drives.find(drive_letter)
    }
}

} // verus!
