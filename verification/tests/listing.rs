use dexter_io_proxy::drivers::drives::capacity::CapacityReading;
use dexter_io_proxy::drivers::drives::list_drives::{
    create_drive, drive_root_paths, get_available_space, list_system_drives, root_label,
    root_path, DRIVE_LETTERS,
};
use dexter_io_proxy::drivers::drives::platform::Platform;
use dexter_io_proxy::drivers::drives::survey::{Reading, RootProbe, Survey, VolumeEntry};
use dexter_io_proxy::drivers::drives::{Drive, Drives};

const GB: u64 = 1_073_741_824;

fn readable(len: u64, free_blocks: u64) -> Reading {
    Reading {
        metadata_len: Some(len),
        capacity: CapacityReading::Blocks {
            blocks: 4 * free_blocks,
            blocks_free: free_blocks,
            block_size: 4096,
        },
    }
}

fn unreadable() -> Reading {
    Reading { metadata_len: None, capacity: CapacityReading::Unavailable }
}

fn absent_root() -> RootProbe {
    RootProbe { exists: false, reading: unreadable() }
}

fn present_root(len: u64, total: u64, free: u64) -> RootProbe {
    RootProbe {
        exists: true,
        reading: Reading { metadata_len: Some(len), capacity: CapacityReading::Bytes { total, free } },
    }
}

fn entry(name: &str, path: Option<&str>, reading: Reading) -> VolumeEntry {
    VolumeEntry { name: name.to_string(), path: path.map(|p| p.to_string()), reading }
}

fn linux(entries: Vec<VolumeEntry>) -> Survey {
    Survey::Linux(Some(entries))
}

fn macos(entries: Vec<VolumeEntry>) -> Survey {
    Survey::MacOs(Some(entries))
}

fn roots_with(present: &[(usize, RootProbe)]) -> Vec<RootProbe> {
    let mut roots = vec![absent_root(); 26];
    for (index, probe) in present {
        roots[*index] = *probe;
    }
    roots
}

#[test]
fn drive_new_keeps_every_field() {
    let drive = Drive::new(
        "Drive (C:)".to_string(),
        "C:\\".to_string(),
        12,
        34,
        "NTFS".to_string(),
        "Windows".to_string(),
        true,
        Some('C'),
    );
    assert_eq!(drive.name, "Drive (C:)");
    assert_eq!(drive.path, "C:\\");
    assert_eq!(drive.free_space_gb, 12);
    assert_eq!(drive.total_space_gb, 34);
    assert_eq!(drive.file_system, "NTFS");
    assert_eq!(drive.os, "Windows");
    assert!(drive.is_removable);
    assert_eq!(drive.drive_letter, Some('C'));
}

#[test]
fn drives_new_is_empty() {
    assert!(Drives::new().drives.is_empty());
}

#[test]
fn platform_tags() {
    assert_eq!(Platform::Windows.os_name(), "Windows");
    assert_eq!(Platform::Linux.os_name(), "Linux");
    assert_eq!(Platform::MacOs.os_name(), "macOS");
    assert_eq!(Platform::Windows.file_system(), "NTFS");
    assert_eq!(Platform::Linux.file_system(), "ext4");
    assert_eq!(Platform::MacOs.file_system(), "APFS");
}

#[test]
fn platform_discovery() {
    assert_eq!(Platform::Windows.volume_directory(), None);
    assert_eq!(Platform::Linux.volume_directory(), Some("/dev/disk/by-label".to_string()));
    assert_eq!(Platform::MacOs.volume_directory(), Some("/Volumes".to_string()));
    assert!(Platform::Windows.has_drive_letters());
    assert!(!Platform::Linux.has_drive_letters());
    assert!(!Platform::MacOs.has_drive_letters());
    assert!(!Platform::Windows.resolves_links());
    assert!(Platform::Linux.resolves_links());
    assert!(!Platform::MacOs.resolves_links());
}

#[test]
fn survey_knows_its_platform() {
    assert!(matches!(Survey::Windows(Vec::new()).platform(), Platform::Windows));
    assert!(matches!(linux(Vec::new()).platform(), Platform::Linux));
    assert!(matches!(macos(Vec::new()).platform(), Platform::MacOs));
}

#[test]
fn root_path_of_a_letter() {
    assert_eq!(root_path('C'), "C:\\");
    assert_eq!(root_path('A'), "A:\\");
    assert_eq!(root_path('Z'), "Z:\\");
    assert_eq!(root_path('C').chars().count(), 3);
}

#[test]
fn root_label_of_a_letter() {
    assert_eq!(root_label('C'), "Drive (C:)");
    assert_eq!(root_label('Z'), "Drive (Z:)");
}

#[test]
fn root_paths_cover_the_alphabet() {
    let paths = drive_root_paths();
    assert_eq!(DRIVE_LETTERS, 26);
    assert_eq!(paths.len(), 26);
    assert_eq!(paths[0], "A:\\");
    assert_eq!(paths[2], "C:\\");
    assert_eq!(paths[25], "Z:\\");
    let expected: Vec<String> = ('A'..='Z').map(|letter| format!("{}:\\", letter)).collect();
    assert_eq!(paths, expected);
}

#[test]
fn available_space_is_free_bytes() {
    let blocks = CapacityReading::Blocks { blocks: 100, blocks_free: 25, block_size: 512 };
    assert_eq!(get_available_space(&blocks), 12_800);
    let bytes = CapacityReading::Bytes { total: 1000, free: 400 };
    assert_eq!(get_available_space(&bytes), 400);
    assert_eq!(get_available_space(&CapacityReading::Unavailable), 0);
}

#[test]
fn create_drive_fills_every_field() {
    let reading = Reading {
        metadata_len: Some(5 * GB + 7),
        capacity: CapacityReading::Blocks {
            blocks: 2_000_000,
            blocks_free: 786_432,
            block_size: 4096,
        },
    };
    let drive = create_drive(
        "/media/backup".to_string(),
        "backup".to_string(),
        "Linux",
        "ext4",
        None,
        &reading,
    )
    .unwrap();
    assert_eq!(drive.name, "backup");
    assert_eq!(drive.path, "/media/backup");
    assert_eq!(drive.total_space_gb, 5);
    assert_eq!(drive.free_space_gb, 3);
    assert_eq!(drive.file_system, "ext4");
    assert_eq!(drive.os, "Linux");
    assert!(!drive.is_removable);
    assert_eq!(drive.drive_letter, None);
}

#[test]
fn create_drive_converts_by_floor_division() {
    let short = Reading {
        metadata_len: Some(1_073_741_823),
        capacity: CapacityReading::Bytes { total: 0, free: 1_073_741_823 },
    };
    let drive = create_drive("p".to_string(), "n".to_string(), "macOS", "APFS", None, &short)
        .unwrap();
    assert_eq!(drive.total_space_gb, 0);
    assert_eq!(drive.free_space_gb, 0);
    let exact = Reading {
        metadata_len: Some(2_147_483_648),
        capacity: CapacityReading::Bytes { total: 0, free: 2_147_483_648 },
    };
    let drive = create_drive("p".to_string(), "n".to_string(), "macOS", "APFS", None, &exact)
        .unwrap();
    assert_eq!(drive.total_space_gb, 2);
    assert_eq!(drive.free_space_gb, 2);
}

#[test]
fn create_drive_takes_total_from_metadata_and_free_from_the_query() {
    let reading = Reading {
        metadata_len: Some(3 * GB),
        capacity: CapacityReading::Bytes { total: 100 * GB, free: 40 * GB },
    };
    let drive = create_drive(
        "C:\\".to_string(),
        "Drive (C:)".to_string(),
        "Windows",
        "NTFS",
        Some('C'),
        &reading,
    )
    .unwrap();
    assert_eq!(drive.total_space_gb, 3);
    assert_eq!(drive.free_space_gb, 40);
    assert_eq!(drive.drive_letter, Some('C'));
}

#[test]
fn create_drive_passes_free_above_total_through() {
    let reading = Reading {
        metadata_len: Some(GB),
        capacity: CapacityReading::Bytes { total: GB, free: 9 * GB },
    };
    let drive =
        create_drive("p".to_string(), "n".to_string(), "Linux", "ext4", None, &reading).unwrap();
    assert_eq!(drive.total_space_gb, 1);
    assert_eq!(drive.free_space_gb, 9);
}

#[test]
fn create_drive_drops_a_candidate_without_metadata() {
    let with_capacity = Reading {
        metadata_len: None,
        capacity: CapacityReading::Bytes { total: 100 * GB, free: 40 * GB },
    };
    assert!(create_drive("p".to_string(), "n".to_string(), "Linux", "ext4", None, &with_capacity)
        .is_none());
    assert!(create_drive("p".to_string(), "n".to_string(), "Linux", "ext4", None, &unreadable())
        .is_none());
}

#[test]
fn create_drive_survives_a_failed_capacity_query() {
    let reading = Reading { metadata_len: Some(4096), capacity: CapacityReading::Unavailable };
    let drive = create_drive(
        "/Volumes/Data".to_string(),
        "Data".to_string(),
        "macOS",
        "APFS",
        None,
        &reading,
    )
    .unwrap();
    assert_eq!(drive.total_space_gb, 0);
    assert_eq!(drive.free_space_gb, 0);
    assert_eq!(drive.path, "/Volumes/Data");
}

#[test]
fn failed_capacity_query_keeps_the_total_of_large_metadata() {
    let reading = Reading { metadata_len: Some(GB), capacity: CapacityReading::Unavailable };
    let drive =
        create_drive("p".to_string(), "n".to_string(), "Linux", "ext4", None, &reading).unwrap();
    assert_eq!(drive.total_space_gb, 1);
    assert_eq!(drive.free_space_gb, 0);
}

#[test]
fn empty_surveys_list_nothing() {
    assert!(list_system_drives(&Survey::Windows(Vec::new())).is_empty());
    assert!(list_system_drives(&linux(Vec::new())).is_empty());
    assert!(list_system_drives(&macos(Vec::new())).is_empty());
    assert!(Drives::list(&linux(Vec::new())).drives.is_empty());
}

#[test]
fn unreadable_directory_lists_nothing() {
    assert!(list_system_drives(&Survey::Linux(None)).is_empty());
    assert!(list_system_drives(&Survey::MacOs(None)).is_empty());
    assert!(Drives::list(&Survey::Linux(None)).drives.is_empty());
    assert!(Drives::get(&Survey::MacOs(None), "C").is_none());
    assert!(matches!(Survey::Linux(None).platform(), Platform::Linux));
    assert!(matches!(Survey::MacOs(None).platform(), Platform::MacOs));
}

#[test]
fn windows_without_roots_lists_nothing() {
    let survey = Survey::Windows(vec![absent_root(); 26]);
    assert!(list_system_drives(&survey).is_empty());
}

#[test]
fn windows_lists_existing_roots_alphabetically() {
    let survey = Survey::Windows(roots_with(&[
        (3, present_root(2 * GB, 500 * GB, 120 * GB)),
        (2, present_root(GB - 1, 250 * GB, 7 * GB + 5)),
        (25, present_root(0, 0, 0)),
    ]));
    let drives = list_system_drives(&survey);
    assert_eq!(drives.len(), 3);

    assert_eq!(drives[0].name, "Drive (C:)");
    assert_eq!(drives[0].path, "C:\\");
    assert_eq!(drives[0].drive_letter, Some('C'));
    assert_eq!(drives[0].total_space_gb, 0);
    assert_eq!(drives[0].free_space_gb, 7);
    assert_eq!(drives[0].file_system, "NTFS");
    assert_eq!(drives[0].os, "Windows");
    assert!(!drives[0].is_removable);

    assert_eq!(drives[1].name, "Drive (D:)");
    assert_eq!(drives[1].path, "D:\\");
    assert_eq!(drives[1].drive_letter, Some('D'));
    assert_eq!(drives[1].total_space_gb, 2);
    assert_eq!(drives[1].free_space_gb, 120);

    assert_eq!(drives[2].name, "Drive (Z:)");
    assert_eq!(drives[2].path, "Z:\\");
    assert_eq!(drives[2].drive_letter, Some('Z'));
    assert_eq!(drives[2].total_space_gb, 0);
    assert_eq!(drives[2].free_space_gb, 0);
}

#[test]
fn windows_lists_all_twenty_six_roots() {
    let survey = Survey::Windows(vec![present_root(GB, GB, GB); 26]);
    let drives = list_system_drives(&survey);
    assert_eq!(drives.len(), 26);
    let letters: Vec<char> = drives.iter().map(|drive| drive.drive_letter.unwrap()).collect();
    let expected: Vec<char> = ('A'..='Z').collect();
    assert_eq!(letters, expected);
    assert_eq!(drives[0].path, "A:\\");
    assert_eq!(drives[25].name, "Drive (Z:)");
}

#[test]
fn windows_skips_a_root_that_does_not_exist() {
    let missing = RootProbe { exists: false, reading: readable(GB, 1000) };
    let survey = Survey::Windows(roots_with(&[(2, missing), (4, present_root(GB, GB, GB))]));
    let drives = list_system_drives(&survey);
    assert_eq!(drives.len(), 1);
    assert_eq!(drives[0].drive_letter, Some('E'));
}

#[test]
fn windows_skips_a_root_without_metadata() {
    let locked = RootProbe {
        exists: true,
        reading: Reading {
            metadata_len: None,
            capacity: CapacityReading::Bytes { total: 10 * GB, free: GB },
        },
    };
    let survey = Survey::Windows(roots_with(&[(0, locked), (1, present_root(GB, GB, GB))]));
    let drives = list_system_drives(&survey);
    assert_eq!(drives.len(), 1);
    assert_eq!(drives[0].path, "B:\\");
}

#[test]
fn windows_treats_unanswered_roots_as_absent() {
    let survey = Survey::Windows(vec![absent_root(), absent_root(), present_root(GB, GB, GB)]);
    let drives = list_system_drives(&survey);
    assert_eq!(drives.len(), 1);
    assert_eq!(drives[0].path, "C:\\");
}

#[test]
fn windows_ignores_answers_beyond_the_alphabet() {
    let mut roots = vec![absent_root(); 26];
    roots.push(present_root(GB, GB, GB));
    roots.push(present_root(GB, GB, GB));
    assert!(list_system_drives(&Survey::Windows(roots)).is_empty());
}

#[test]
fn linux_lists_entries_in_directory_order() {
    let survey = linux(vec![
        entry("root", Some("/dev/sda2"), readable(3 * GB, 524_288)),
        entry("EFI", Some("/dev/sda1"), readable(0, 0)),
        entry("data", Some("/dev/nvme0n1p1"), readable(GB - 1, 262_143)),
    ]);
    let drives = list_system_drives(&survey);
    assert_eq!(drives.len(), 3);

    assert_eq!(drives[0].name, "root");
    assert_eq!(drives[0].path, "/dev/sda2");
    assert_eq!(drives[0].total_space_gb, 3);
    assert_eq!(drives[0].free_space_gb, 2);
    assert_eq!(drives[0].file_system, "ext4");
    assert_eq!(drives[0].os, "Linux");
    assert!(!drives[0].is_removable);
    assert_eq!(drives[0].drive_letter, None);

    assert_eq!(drives[1].name, "EFI");
    assert_eq!(drives[1].path, "/dev/sda1");
    assert_eq!(drives[1].total_space_gb, 0);
    assert_eq!(drives[1].free_space_gb, 0);

    assert_eq!(drives[2].name, "data");
    assert_eq!(drives[2].path, "/dev/nvme0n1p1");
    assert_eq!(drives[2].total_space_gb, 0);
    assert_eq!(drives[2].free_space_gb, 0);
}

#[test]
fn linux_skips_an_entry_that_does_not_resolve() {
    let survey = linux(vec![
        entry("dangling", None, readable(GB, 1000)),
        entry("root", Some("/dev/sda2"), readable(GB, 1000)),
    ]);
    let drives = list_system_drives(&survey);
    assert_eq!(drives.len(), 1);
    assert_eq!(drives[0].name, "root");
}

#[test]
fn linux_skips_an_entry_without_metadata() {
    let survey = linux(vec![
        entry("root", Some("/dev/sda2"), readable(GB, 1000)),
        entry("secret", Some("/dev/sdb1"), unreadable()),
        entry("data", Some("/dev/sdc1"), readable(GB, 1000)),
    ]);
    let drives = list_system_drives(&survey);
    assert_eq!(drives.len(), 2);
    assert_eq!(drives[0].name, "root");
    assert_eq!(drives[1].name, "data");
}

#[test]
fn macos_lists_volumes() {
    let survey = macos(vec![
        entry("Macintosh HD", Some("/Volumes/Macintosh HD"), readable(2 * GB, 786_432)),
        entry("Backup", Some("/Volumes/Backup"), unreadable()),
        entry("USB", Some("/Volumes/USB"), readable(160, 0)),
    ]);
    let drives = Drives::list(&survey).drives;
    assert_eq!(drives.len(), 2);

    assert_eq!(drives[0].name, "Macintosh HD");
    assert_eq!(drives[0].path, "/Volumes/Macintosh HD");
    assert_eq!(drives[0].total_space_gb, 2);
    assert_eq!(drives[0].free_space_gb, 3);
    assert_eq!(drives[0].file_system, "APFS");
    assert_eq!(drives[0].os, "macOS");
    assert!(!drives[0].is_removable);
    assert_eq!(drives[0].drive_letter, None);

    assert_eq!(drives[1].name, "USB");
    assert_eq!(drives[1].path, "/Volumes/USB");
    assert_eq!(drives[1].total_space_gb, 0);
    assert_eq!(drives[1].free_space_gb, 0);
}

#[test]
fn list_and_list_system_drives_agree() {
    let survey = linux(vec![
        entry("root", Some("/dev/sda2"), readable(3 * GB, 524_288)),
        entry("gone", None, unreadable()),
        entry("data", Some("/dev/sdc1"), readable(7 * GB, 1)),
    ]);
    let listed = Drives::list(&survey).drives;
    let plain = list_system_drives(&survey);
    assert_eq!(listed.len(), plain.len());
    for (a, b) in listed.iter().zip(plain.iter()) {
        assert_eq!(a.name, b.name);
        assert_eq!(a.path, b.path);
        assert_eq!(a.total_space_gb, b.total_space_gb);
        assert_eq!(a.free_space_gb, b.free_space_gb);
    }
}

#[test]
fn listing_leaves_the_survey_untouched() {
    let survey = linux(vec![entry("root", Some("/dev/sda2"), readable(GB, 1))]);
    let first = list_system_drives(&survey);
    let second = list_system_drives(&survey);
    assert_eq!(first.len(), 1);
    assert_eq!(second.len(), 1);
    assert_eq!(first[0].path, second[0].path);
    match &survey {
        Survey::Linux(Some(entries)) => assert_eq!(entries[0].name, "root"),
        _ => panic!("the survey changed"),
    }
}
