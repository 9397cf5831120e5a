//! What holds of every enumeration and of every lookup.
//!
//! Each law is stated over [`listing`] and [`lookup`], the functions by which
//! the contracts of `Drives::list`, `Drives::get` and `list_system_drives`
//! say what they return.

use vstd::prelude::*;
use vstd::seq_lib::group_to_multiset_ensures;
use super::DriveView;
use super::capacity::{CapacityReading, BYTES_PER_GB};
use super::platform::{lemma_os_tags_differ, Platform};
use super::survey::{Reading, RootProbe, SurveyView, VolumeEntryView};
use super::list_drives::{
    ascii_uppercase, entry_outcome, entry_outcomes, first_with_letter, keep, listed, listing,
    lookup, names_no_drive, outcomes, spec_create_drive, spec_drive_letter, spec_root_path,
    DRIVE_LETTERS,
};
use super::sequences::{
    lemma_filter_map_keeps, lemma_filter_map_of_mapped, lemma_filter_map_origin,
    lemma_filter_map_permutation, lemma_filter_map_update, lemma_map_values_is_filter_map,
};

verus! {

/// How many candidates a survey has: the twenty-six drive roots, or the
/// entries of the volume directory.
pub open spec fn candidate_count(survey: SurveyView) -> nat {
    match survey {
        SurveyView::Windows(_) => DRIVE_LETTERS as nat,
        SurveyView::Linux(entries) => entries.len(),
        SurveyView::MacOs(entries) => entries.len(),
    }
}

/// The path of a candidate, where it has one: the root of a drive letter
/// that was probed and exists, or the path of a directory entry.
pub open spec fn candidate_path(survey: SurveyView, index: int) -> Option<Seq<char>> {
    match survey {
        SurveyView::Windows(probes) => if index < probes.len() && probes[index].exists {
            Some(spec_root_path(spec_drive_letter(index)))
        } else {
            None
        },
        SurveyView::Linux(entries) => entries[index].path,
        SurveyView::MacOs(entries) => entries[index].path,
    }
}

/// The host's answers about a candidate's path.
pub open spec fn candidate_reading(survey: SurveyView, index: int) -> Reading {
    match survey {
        SurveyView::Windows(probes) => probes[index].reading,
        SurveyView::Linux(entries) => entries[index].reading,
        SurveyView::MacOs(entries) => entries[index].reading,
    }
}

/// Whether a candidate's path existed and its metadata could be read when
/// the host was examined.
pub open spec fn candidate_readable(survey: SurveyView, index: int) -> bool {
    &&& 0 <= index < candidate_count(survey)
    &&& candidate_path(survey, index) is Some
    &&& candidate_reading(survey, index).metadata_len is Some
}

/// A survey has one outcome for each candidate, and the outcome is a drive
/// exactly where the candidate was readable. The drive has the candidate's
/// path.
pub proof fn lemma_outcome_is_drive_iff_readable(survey: SurveyView, index: int)
    requires
        0 <= index < candidate_count(survey),
    ensures
        outcomes(survey).len() == candidate_count(survey),
        outcomes(survey)[index] is Some <==> candidate_readable(survey, index),
        outcomes(survey)[index] matches Some(drive) ==> candidate_path(survey, index) == Some(
            drive.path,
        ),
{
}

/// Whether a drive stands for a candidate of the survey whose path existed
/// and whose metadata could be read: it is that candidate's outcome and has
/// its path.
pub open spec fn stands_for_readable_candidate(survey: SurveyView, drive: DriveView) -> bool {
    exists|index: int|
        #[trigger] candidate_readable(survey, index) && outcomes(survey)[index] == Some(drive)
            && candidate_path(survey, index) == Some(drive.path)
}

/// Every listed drive stands for a candidate whose path existed and whose
/// metadata could be read when the host was examined.
pub proof fn lemma_listed_drive_was_readable(survey: SurveyView, position: int)
    requires
        0 <= position < listing(survey).len(),
    ensures
        stands_for_readable_candidate(survey, listing(survey)[position]),
{
    let all = outcomes(survey);
    lemma_filter_map_origin(all, keep(), position);
    let index = choose|index: int|
        0 <= index < all.len() && keep()(#[trigger] all[index]) == Some(
            all.filter_map(keep())[position],
        );
    lemma_outcome_is_drive_iff_readable(survey, index);
    assert(candidate_readable(survey, index));
}

/// Every candidate whose path existed and whose metadata could be read is
/// listed: none is lost.
pub proof fn lemma_readable_candidate_is_listed(survey: SurveyView, index: int)
    requires
        candidate_readable(survey, index),
    ensures
        outcomes(survey)[index] is Some,
        listing(survey).contains(outcomes(survey)[index]->0),
{
    lemma_outcome_is_drive_iff_readable(survey, index);
    lemma_filter_map_keeps(outcomes(survey), keep(), index);
}

/// Every listed drive carries the tags of the host's family, is not marked
/// removable, and has a drive letter if and only if its `os` is `"Windows"`;
/// the letter is then one of `A` to `Z`.
pub proof fn lemma_listed_drive_is_consistent(survey: SurveyView, position: int)
    requires
        0 <= position < listing(survey).len(),
    ensures
        listing(survey)[position].os == survey.platform().os_tag(),
        listing(survey)[position].file_system == survey.platform().file_system_tag(),
        listing(survey)[position].drive_letter is Some <==> listing(survey)[position].os
            == "Windows"@,
        listing(survey)[position].is_consistent(),
{
    let drive = listing(survey)[position];
    lemma_listed_drive_was_readable(survey, position);
    let index = choose|index: int|
        #[trigger] candidate_readable(survey, index) && outcomes(survey)[index] == Some(drive);
    lemma_os_tags_differ(survey.platform(), Platform::Windows);
    if survey is Windows {
        let letter = spec_drive_letter(index);
        assert('A' <= letter <= 'Z');
    }
}

/// A lookup gives the first drive that carries the identifier's first
/// character in upper case, and gives none exactly where the identifier is
/// empty or no drive carries that letter.
pub proof fn lemma_lookup_finds_first(drives: Seq<DriveView>, identifier: Seq<char>)
    ensures
        match lookup(drives, identifier) {
            Some(drive) => {
                &&& identifier.len() > 0
                &&& exists|position: int|
                    {
                        &&& 0 <= position < drives.len()
                        &&& #[trigger] drives[position] == drive
                        &&& drive.drive_letter == Some(ascii_uppercase(identifier[0]))
                        &&& forall|earlier: int|
                            0 <= earlier < position ==> (#[trigger] drives[earlier]).drive_letter
                                != Some(ascii_uppercase(identifier[0]))
                    }
            },
            None => names_no_drive(drives, identifier),
        },
        lookup(drives, identifier) is None <==> names_no_drive(drives, identifier),
{
    if identifier.len() > 0 {
        lemma_first_with_letter(drives, ascii_uppercase(identifier[0]));
    }
}

/// `first_with_letter` gives the first drive with the letter, and none
/// exactly where no drive has it.
proof fn lemma_first_with_letter(drives: Seq<DriveView>, letter: char)
    ensures
        match first_with_letter(drives, letter) {
            Some(drive) => exists|position: int|
                {
                    &&& 0 <= position < drives.len()
                    &&& #[trigger] drives[position] == drive
                    &&& drive.drive_letter == Some(letter)
                    &&& forall|earlier: int|
                        0 <= earlier < position ==> (#[trigger] drives[earlier]).drive_letter
                            != Some(letter)
                },
            None => forall|position: int|
                0 <= position < drives.len() ==> (#[trigger] drives[position]).drive_letter
                    != Some(letter),
        },
    decreases drives.len(),
{
    if drives.len() == 0 {
    } else if drives.first().drive_letter == Some(letter) {
        assert(drives[0] == drives.first());
    } else {
        let rest = drives.drop_first();
        lemma_first_with_letter(rest, letter);
        match first_with_letter(rest, letter) {
            Some(drive) => {
                let inner = choose|position: int|
                    {
                        &&& 0 <= position < rest.len()
                        &&& #[trigger] rest[position] == drive
                        &&& drive.drive_letter == Some(letter)
                        &&& forall|earlier: int|
                            0 <= earlier < position ==> (#[trigger] rest[earlier]).drive_letter
                                != Some(letter)
                    };
                assert(drives[inner + 1] == drive);
                assert forall|earlier: int| 0 <= earlier < inner + 1 implies (
                #[trigger] drives[earlier]).drive_letter != Some(letter) by {
                    if earlier > 0 {
                        assert(rest[earlier - 1] == drives[earlier]);
                    }
                }
            },
            None => {
                assert forall|position: int| 0 <= position < drives.len() implies (
                #[trigger] drives[position]).drive_letter != Some(letter) by {
                    if position > 0 {
                        assert(rest[position - 1] == drives[position]);
                    }
                }
            },
        }
    }
}

/// A lookup looks at the identifier's first character only, and not at its
/// case: two identifiers that begin with the same letter, in upper or in
/// lower case, name the same drive. So `"C"`, `"c"` and `"cdrom"` agree.
pub proof fn lemma_lookup_ignores_case(drives: Seq<DriveView>, a: Seq<char>, b: Seq<char>)
    requires
        a.len() > 0,
        b.len() > 0,
        ascii_uppercase(a[0]) == ascii_uppercase(b[0]),
    ensures
        lookup(drives, a) == lookup(drives, b),
{
}

/// An upper-case ASCII letter and its lower-case form have the same
/// upper-case form.
pub proof fn lemma_lower_case_letter_folds(letter: char)
    requires
        'A' <= letter <= 'Z',
    ensures
        ascii_uppercase(letter) == letter,
        ascii_uppercase(((letter as u8) + 32) as char) == letter,
{
}

/// The empty identifier names no drive.
pub proof fn lemma_empty_identifier_names_nothing(drives: Seq<DriveView>)
    ensures
        lookup(drives, Seq::<char>::empty()) is None,
{
}

/// Where no drive carries the letter that an identifier asks for, the lookup
/// gives none.
pub proof fn lemma_absent_letter_is_not_found(drives: Seq<DriveView>, identifier: Seq<char>)
    requires
        identifier.len() > 0,
        forall|position: int|
            0 <= position < drives.len() ==> (#[trigger] drives[position]).drive_letter != Some(
                ascii_uppercase(identifier[0]),
            ),
    ensures
        lookup(drives, identifier) is None,
{
    lemma_lookup_finds_first(drives, identifier);
}

/// Only drives of Windows carry letters, so on every other host a lookup
/// gives none, whatever the identifier.
pub proof fn lemma_lookup_needs_drive_letters(survey: SurveyView, identifier: Seq<char>)
    requires
        !survey.platform().spec_has_drive_letters(),
    ensures
        lookup(listing(survey), identifier) is None,
{
    let drives = listing(survey);
    lemma_os_tags_differ(survey.platform(), Platform::Windows);
    assert forall|position: int| 0 <= position < drives.len() implies (
    #[trigger] drives[position]).drive_letter is None by {
        lemma_listed_drive_is_consistent(survey, position);
    }
    lemma_lookup_finds_first(drives, identifier);
}

/// Whether two surveys hold the same answers. On Windows the roots are
/// probed in a fixed order, so the answers are the same sequence. Elsewhere
/// the directory may give its entries in another order each time: the
/// entries are the same up to their order.
pub open spec fn same_answers(a: SurveyView, b: SurveyView) -> bool {
    match (a, b) {
        (SurveyView::Windows(p), SurveyView::Windows(q)) => p == q,
        (SurveyView::Linux(e), SurveyView::Linux(f)) => e.to_multiset() == f.to_multiset(),
        (SurveyView::MacOs(e), SurveyView::MacOs(f)) => e.to_multiset() == f.to_multiset(),
        _ => false,
    }
}

/// The path and the total space of a drive.
pub open spec fn capacity_pair() -> spec_fn(DriveView) -> (Seq<char>, u64) {
    |drive: DriveView| (drive.path, drive.total_space_gb)
}

/// The path and the total space of each drive, in the order of the drives.
pub open spec fn capacity_pairs(drives: Seq<DriveView>) -> Seq<(Seq<char>, u64)> {
    drives.map_values(capacity_pair())
}

/// Enumeration is repeatable: two surveys with the same answers list the
/// same drives, up to the order in which the host gave its entries. In
/// particular they list the same pairs of path and total space, each as
/// often in the one listing as in the other.
pub proof fn lemma_listing_ignores_order(a: SurveyView, b: SurveyView)
    requires
        same_answers(a, b),
    ensures
        listing(a).to_multiset() == listing(b).to_multiset(),
        listing(a).len() == listing(b).len(),
        capacity_pairs(listing(a)).to_multiset() == capacity_pairs(listing(b)).to_multiset(),
{
    broadcast use group_to_multiset_ensures;

    match (a, b) {
        (SurveyView::Windows(p), SurveyView::Windows(q)) => {},
        (SurveyView::Linux(e), SurveyView::Linux(f)) => {
            lemma_entries_ignore_order(Platform::Linux, e, f);
        },
        (SurveyView::MacOs(e), SurveyView::MacOs(f)) => {
            lemma_entries_ignore_order(Platform::MacOs, e, f);
        },
        _ => {},
    }
    assert(listing(a).to_multiset().len() == listing(a).len());
    assert(listing(b).to_multiset().len() == listing(b).len());
    let pair_of = |drive: DriveView| Some(capacity_pair()(drive));
    lemma_map_values_is_filter_map(listing(a), capacity_pair(), pair_of);
    lemma_map_values_is_filter_map(listing(b), capacity_pair(), pair_of);
    lemma_filter_map_permutation(listing(a), listing(b), pair_of);
}

/// The drives of a volume directory are the same, up to their order, for
/// the same entries in any order.
proof fn lemma_entries_ignore_order(
    platform: Platform,
    e: Seq<VolumeEntryView>,
    f: Seq<VolumeEntryView>,
)
    requires
        e.to_multiset() == f.to_multiset(),
    ensures
        listed(entry_outcomes(platform, e)).to_multiset() == listed(
            entry_outcomes(platform, f),
        ).to_multiset(),
{
    let outcome_of = |entry: VolumeEntryView| entry_outcome(platform, entry);
    lemma_filter_map_of_mapped(e, outcome_of, entry_outcomes(platform, e), keep());
    lemma_filter_map_of_mapped(f, outcome_of, entry_outcomes(platform, f), keep());
    lemma_filter_map_permutation(e, f, outcome_of);
}

/// Whether the host answered about a candidate at all. Every entry of a
/// volume directory comes with its answers; a drive root may be left
/// without.
pub open spec fn candidate_probed(survey: SurveyView, index: int) -> bool {
    &&& 0 <= index < candidate_count(survey)
    &&& survey matches SurveyView::Windows(probes) ==> index < probes.len()
}

/// The answers about one path, had the capacity query failed.
pub open spec fn with_failed_query(reading: Reading) -> Reading {
    Reading { metadata_len: reading.metadata_len, capacity: CapacityReading::Unavailable }
}

/// The survey, had the capacity query failed for one candidate and
/// everything else been answered alike.
pub open spec fn with_failed_query_at(survey: SurveyView, index: int) -> SurveyView {
    match survey {
        SurveyView::Windows(probes) => SurveyView::Windows(
            probes.update(
                index,
                RootProbe {
                    exists: probes[index].exists,
                    reading: with_failed_query(probes[index].reading),
                },
            ),
        ),
        SurveyView::Linux(entries) => SurveyView::Linux(
            entries.update(index, entry_with_failed_query(entries[index])),
        ),
        SurveyView::MacOs(entries) => SurveyView::MacOs(
            entries.update(index, entry_with_failed_query(entries[index])),
        ),
    }
}

/// A directory entry, had the capacity query failed for it.
pub open spec fn entry_with_failed_query(entry: VolumeEntryView) -> VolumeEntryView {
    VolumeEntryView {
        name: entry.name,
        path: entry.path,
        reading: with_failed_query(entry.reading),
    }
}

/// The drive with its free space unknown, which is reported as zero.
pub open spec fn without_free_space(drive: DriveView) -> DriveView {
    DriveView {
        name: drive.name,
        path: drive.path,
        free_space_gb: 0,
        total_space_gb: drive.total_space_gb,
        file_system: drive.file_system,
        os: drive.os,
        is_removable: drive.is_removable,
        drive_letter: drive.drive_letter,
    }
}

/// A failed capacity query does not drop a candidate and touches no other:
/// the candidate's outcome is the same drive with zero free space, or still
/// none; every other outcome is as before; the listing has the same length
/// and differs in that one drive at most.
pub proof fn lemma_failed_query_degrades_one_drive(survey: SurveyView, index: int)
    requires
        candidate_probed(survey, index),
    ensures
        outcomes(with_failed_query_at(survey, index)).len() == outcomes(survey).len(),
        forall|other: int|
            0 <= other < outcomes(survey).len() && other != index ==> #[trigger] outcomes(
                with_failed_query_at(survey, index),
            )[other] == outcomes(survey)[other],
        match outcomes(survey)[index] {
            Some(drive) => {
                &&& outcomes(with_failed_query_at(survey, index))[index] == Some(
                    without_free_space(drive),
                )
                &&& listed(outcomes(survey).take(index)).len() < listing(survey).len()
                &&& listing(with_failed_query_at(survey, index)) == listing(survey).update(
                    listed(outcomes(survey).take(index)).len() as int,
                    without_free_space(drive),
                )
            },
            None => {
                &&& outcomes(with_failed_query_at(survey, index))[index] is None
                &&& listing(with_failed_query_at(survey, index)) == listing(survey)
            },
        },
        listing(with_failed_query_at(survey, index)).len() == listing(survey).len(),
{
    let before = outcomes(survey);
    let after = outcomes(with_failed_query_at(survey, index));
    assert(after.len() == before.len());
    assert forall|other: int| 0 <= other < before.len() && other != index implies after[other]
        == before[other] by {}
    match before[index] {
        Some(drive) => {
            let degraded = Some(without_free_space(drive));
            assert(after[index] == degraded);
            assert(after =~= before.update(index, degraded));
            lemma_filter_map_update(before, keep(), index, degraded);
        },
        None => {
            assert(after[index] is None);
            assert(after =~= before);
        },
    }
}

/// A candidate with readable metadata of less than one gigabyte whose
/// capacity query failed is listed with zero total and zero free space.
pub proof fn lemma_failed_query_leaves_no_capacity(
    path: Seq<char>,
    name: Seq<char>,
    os_type: Seq<char>,
    fs_type: Seq<char>,
    drive_letter: Option<char>,
    metadata_len: u64,
)
    requires
        metadata_len < BYTES_PER_GB,
    ensures
        spec_create_drive(
            path,
            name,
            os_type,
            fs_type,
            drive_letter,
            Reading { metadata_len: Some(metadata_len), capacity: CapacityReading::Unavailable },
        ) matches Some(drive) && drive.total_space_gb == 0 && drive.free_space_gb == 0,
{
}

} // verus!
