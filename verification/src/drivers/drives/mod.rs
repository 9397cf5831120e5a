//! Mounted storage volumes and their capacity.

pub mod capacity;
pub mod get_storage;
pub mod laws;
pub mod list_drives;
pub mod platform;
pub mod sequences;
pub mod survey;

use vstd::prelude::*;

verus! {

/// One discovered volume.
#[derive(Clone, Debug)]
pub struct Drive {
    /// Human-readable label: a drive-letter label, or the name of the
    /// volume's directory entry.
    pub name: String,
    /// The path by which the host knows the volume.
    pub path: String,
    /// Free space in whole gigabytes.
    pub free_space_gb: u64,
    /// Total space in whole gigabytes.
    pub total_space_gb: u64,
    /// Filesystem label of the platform; a best-effort tag.
    pub file_system: String,
    /// Operating-system family: `"Windows"`, `"Linux"` or `"macOS"`.
    pub os: String,
    /// Whether the volume is removable. Never detected: always `false` on a
    /// listed drive.
    pub is_removable: bool,
    /// The drive's letter; present on Windows only.
    pub drive_letter: Option<char>,
}

/// The mathematical value of a [`Drive`]: its strings as sequences of
/// characters.
pub struct DriveView {
    pub name: Seq<char>,
    pub path: Seq<char>,
    pub free_space_gb: u64,
    pub total_space_gb: u64,
    pub file_system: Seq<char>,
    pub os: Seq<char>,
    pub is_removable: bool,
    pub drive_letter: Option<char>,
}

impl View for Drive {
    type V = DriveView;

    open spec fn view(&self) -> DriveView {
        DriveView {
            name: self.name@,
            path: self.path@,
            free_space_gb: self.free_space_gb,
            total_space_gb: self.total_space_gb,
            file_system: self.file_system@,
            os: self.os@,
            is_removable: self.is_removable,
            drive_letter: self.drive_letter,
        }
    }
}

impl DeepView for Drive {
    type V = DriveView;

    open spec fn deep_view(&self) -> DriveView {
        self@
    }
}

impl DriveView {
    /// What holds of every drive that an enumeration lists: it carries a
    /// letter exactly when it was found on Windows, the letter is one of
    /// `A` to `Z`, and it is not marked removable.
    pub open spec fn is_consistent(self) -> bool {
        &&& self.drive_letter is Some <==> self.os == "Windows"@
        &&& self.drive_letter matches Some(letter) ==> 'A' <= letter <= 'Z'
        &&& !self.is_removable
    }
}

/// An ordered collection of drives, in the order in which they were found.
#[derive(Clone, Debug)]
pub struct Drives {
    pub drives: Vec<Drive>,
}

impl View for Drives {
    type V = Seq<DriveView>;

    open spec fn view(&self) -> Seq<DriveView> {
        self.drives.deep_view()
    }
}

} // verus!
