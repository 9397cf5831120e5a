//! The operating-system families whose volumes can be listed, and the fixed
//! labels each family gives its drives.

use vstd::prelude::*;
use vstd::string::StringExecFns;

verus! {

/// An operating-system family.
#[derive(Clone, Copy, Debug)]
pub enum Platform {
    Windows,
    Linux,
    MacOs,
}

impl Platform {
    /// The tag a drive carries in its `os` field.
    pub open spec fn os_tag(self) -> Seq<char> {
        match self {
            Platform::Windows => "Windows"@,
            Platform::Linux => "Linux"@,
            Platform::MacOs => "macOS"@,
        }
    }

    /// The tag a drive carries in its `file_system` field. It is a fixed label
    /// for the family; the filesystem itself is never asked.
    pub open spec fn file_system_tag(self) -> Seq<char> {
        match self {
            Platform::Windows => "NTFS"@,
            Platform::Linux => "ext4"@,
            Platform::MacOs => "APFS"@,
        }
    }

    /// The directory whose entries are the family's volumes, where it has one.
    pub open spec fn spec_volume_directory(self) -> Option<Seq<char>> {
        match self {
            Platform::Windows => None,
            Platform::Linux => Some("/dev/disk/by-label"@),
            Platform::MacOs => Some("/Volumes"@),
        }
    }

    /// Whether drives of the family are named by a letter.
    pub open spec fn spec_has_drive_letters(self) -> bool {
        self is Windows
    }

    /// Whether an entry of the volume directory is a link that has to be
    /// resolved to the path it points to.
    pub open spec fn spec_resolves_links(self) -> bool {
        self is Linux
    }

    /// The value of a drive's `os` field: `"Windows"`, `"Linux"` or `"macOS"`.
    pub fn os_name(&self) -> (name: &'static str)
        ensures
            name@ == self.os_tag(),
    {
        match self {
            Platform::Windows => "Windows",
            Platform::Linux => "Linux",
            Platform::MacOs => "macOS",
        }
    }

    /// The value of a drive's `file_system` field: `"NTFS"`, `"ext4"` or
    /// `"APFS"`.
    pub fn file_system(&self) -> (name: &'static str)
        ensures
            name@ == self.file_system_tag(),
    {
        match self {
            Platform::Windows => "NTFS",
            Platform::Linux => "ext4",
            Platform::MacOs => "APFS",
        }
    }

    /// The directory to read for the family's volumes: `/dev/disk/by-label`
    /// on Linux, `/Volumes` on macOS. Windows has none; its drives are found
    /// by their roots.
    pub fn volume_directory(&self) -> (dir: Option<String>)
        ensures
            match dir {
                Some(d) => self.spec_volume_directory() == Some(d@),
                None => self.spec_volume_directory() is None,
            },
    {
        match self {
            Platform::Windows => None,
            Platform::Linux => Some(String::from_str("/dev/disk/by-label")),
            Platform::MacOs => Some(String::from_str("/Volumes")),
        }
    }

    /// Whether drives of the family are named by a letter. Only those of
    /// Windows are.
    pub fn has_drive_letters(&self) -> (yes: bool)
        ensures
            yes == self.spec_has_drive_letters(),
    {
        match self {
            Platform::Windows => true,
            _ => false,
        }
    }

    /// Whether the entries of the volume directory are links to resolve. Those
    /// of Linux are; the entries of macOS are used as they stand.
    pub fn resolves_links(&self) -> (yes: bool)
        ensures
            yes == self.spec_resolves_links(),
    {
        match self {
            Platform::Linux => true,
            _ => false,
        }
    }
}

/// The three `os` tags are pairwise different, so a drive's tag tells its
/// family.
pub proof fn lemma_os_tags_differ(a: Platform, b: Platform)
    ensures
        a.os_tag() == b.os_tag() <==> a == b,
{
    reveal_strlit("Windows");
    reveal_strlit("Linux");
    reveal_strlit("macOS");
    assert("Windows"@.len() == 7);
    assert("Linux"@.len() == 5);
    assert("macOS"@.len() == 5);
    assert("Linux"@[0] == 'L');
    assert("macOS"@[0] == 'm');
}

} // verus!
