//! What a host answered when it was examined for volumes.
//!
//! A survey is plain data. Whoever examines the host fills it in; the
//! enumeration decides from it alone which drives exist.

use vstd::prelude::*;
use super::capacity::CapacityReading;
use super::platform::Platform;

verus! {

/// The host's answers about one path.
#[derive(Clone, Copy, Debug)]
pub struct Reading {
    /// The length that the path's metadata gave; `None` where the metadata
    /// could not be read.
    pub metadata_len: Option<u64>,
    /// What the capacity query against the path reported.
    pub capacity: CapacityReading,
}

/// The host's answers about one drive root of Windows.
#[derive(Clone, Copy, Debug)]
pub struct RootProbe {
    /// Whether the root path exists.
    pub exists: bool,
    /// The answers about the root path.
    pub reading: Reading,
}

/// One entry of a volume directory, with the host's answers about it.
#[derive(Clone, Debug)]
pub struct VolumeEntry {
    /// The entry's file name.
    pub name: String,
    /// The volume's path: on Linux the path that the entry resolves to, on
    /// macOS the entry's own path. `None` where the entry could not be
    /// resolved.
    pub path: Option<String>,
    /// The answers about that path.
    pub reading: Reading,
}

/// The mathematical value of a [`VolumeEntry`].
pub struct VolumeEntryView {
    pub name: Seq<char>,
    pub path: Option<Seq<char>>,
    pub reading: Reading,
}

impl View for VolumeEntry {
    type V = VolumeEntryView;

    open spec fn view(&self) -> VolumeEntryView {
        VolumeEntryView {
            name: self.name@,
            path: match self.path {
                Some(p) => Some(p@),
                None => None,
            },
            reading: self.reading,
        }
    }
}

impl DeepView for VolumeEntry {
    type V = VolumeEntryView;

    open spec fn deep_view(&self) -> VolumeEntryView {
        self@
    }
}

/// Everything a host answered during one examination.
#[derive(Clone, Debug)]
pub enum Survey {
    /// Windows: the answers about the drive roots `A:\`, `B:\` and so on, in
    /// alphabetical order. A root without an answer counts as absent;
    /// answers beyond the twenty-sixth are not looked at.
    Windows(Vec<RootProbe>),
    /// Linux: the entries of `/dev/disk/by-label`, in the order in which the
    /// directory gave them; `None` where the directory could not be read.
    Linux(Option<Vec<VolumeEntry>>),
    /// macOS: the entries of `/Volumes`, in the order in which the directory
    /// gave them; `None` where the directory could not be read.
    MacOs(Option<Vec<VolumeEntry>>),
}

/// The mathematical value of a [`Survey`]. A volume directory that could not
/// be read stands in it as a directory without entries: the two cannot be
/// told apart by what is listed.
pub enum SurveyView {
    Windows(Seq<RootProbe>),
    Linux(Seq<VolumeEntryView>),
    MacOs(Seq<VolumeEntryView>),
}

/// The entries that a volume directory gave. One that could not be read
/// gave none.
pub open spec fn entries_of(directory: Option<Vec<VolumeEntry>>) -> Seq<VolumeEntryView> {
    match directory {
        Some(entries) => entries.deep_view(),
        None => Seq::empty(),
    }
}

impl View for Survey {
    type V = SurveyView;

    open spec fn view(&self) -> SurveyView {
        match self {
            Survey::Windows(probes) => SurveyView::Windows(probes@),
            Survey::Linux(directory) => SurveyView::Linux(entries_of(*directory)),
            Survey::MacOs(directory) => SurveyView::MacOs(entries_of(*directory)),
        }
    }
}

impl SurveyView {
    /// The family of the host that was examined.
    pub open spec fn platform(self) -> Platform {
        match self {
            SurveyView::Windows(_) => Platform::Windows,
            SurveyView::Linux(_) => Platform::Linux,
            SurveyView::MacOs(_) => Platform::MacOs,
        }
    }
}

impl Survey {
    /// The family of the host that was examined.
    pub fn platform(&self) -> (platform: Platform)
        ensures
            platform == self@.platform(),
    {
        match self {
            Survey::Windows(_) => Platform::Windows,
            Survey::Linux(_) => Platform::Linux,
            Survey::MacOs(_) => Platform::MacOs,
        }
    }
}

} // verus!
