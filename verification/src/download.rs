//! Bookkeeping of a helper download: the stage and percentage shown to the
//! user while a release is fetched, unpacked and installed.

use vstd::prelude::*;

verus! {

/// The view of an optional string slice.
pub open spec fn opt_str_view(o: Option<&str>) -> Option<Seq<char>> {
    match o {
        Some(s) => Some(s@),
        None => None,
    }
}

/// Progress of the current download: a percentage and a stage name, both
/// absent while no download runs.
#[derive(Debug, Clone)]
pub struct DownloadStatus {
    pub progress: Option<u8>,
    pub stage: Option<String>,
}

/// The view of an optional string.
pub open spec fn opt_string_view(o: Option<String>) -> Option<Seq<char>> {
    match o {
        Some(s) => Some(s@),
        None => None,
    }
}

impl DownloadStatus {
    /// No download under way.
    pub fn new() -> (s: Self)
        ensures
            s.progress is None,
            s.stage is None,
    {
        DownloadStatus { progress: None, stage: None }
    }

    /// Records a new percentage and stage.
    pub fn set(&mut self, progress: Option<u8>, stage: Option<&str>)
        ensures
            final(self).progress == progress,
            opt_string_view(final(self).stage) == opt_str_view(stage),
    {
        self.progress = progress;
        self.stage = match stage {
            Some(s) => Some(String::from_str(s)),
            None => None,
        };
    }

    /// A download has begun: nothing fetched yet.
    pub fn begin(&mut self)
        ensures
            final(self).progress == Some(0u8),
            opt_string_view(final(self).stage) == Some(stage_label(DownloadStage::Downloading)),
    {
        self.set(Some(0), Some(DownloadStage::Downloading.label()));
    }

    /// Reports `current` of `total` bytes fetched; a report without a known
    /// total (zero or less) changes nothing.
    pub fn report(&mut self, current: i64, total: i64)
        requires
            total <= 0 || current <= i64::MAX / 100,
        ensures
            total > 0 ==> final(self).progress == Some(
                progress_percent(current as int, total as int) as u8,
            ) && opt_string_view(final(self).stage) == Some(
                stage_label(DownloadStage::Downloading),
            ),
            total <= 0 ==> *final(self) == *old(self),
    {
        if total > 0 {
            let p = download_progress(current, total);
            self.set(p, Some(DownloadStage::Downloading.label()));
        }
    }

    /// The package is fetched and being unpacked.
    pub fn extracting(&mut self)
        ensures
            final(self).progress == Some(100u8),
            opt_string_view(final(self).stage) == Some(stage_label(DownloadStage::Extracting)),
    {
        self.set(Some(100), Some(DownloadStage::Extracting.label()));
    }

    /// The executable is being put in place.
    pub fn installing(&mut self)
        ensures
            final(self).progress == Some(100u8),
            opt_string_view(final(self).stage) == Some(stage_label(DownloadStage::Installing)),
    {
        self.set(Some(100), Some(DownloadStage::Installing.label()));
    }

    /// Forgets the progress once a download has ended, however it ended.
    pub fn clear(&mut self)
        ensures
            final(self).progress is None,
            final(self).stage is None,
    {
        self.progress = None;
        self.stage = None;
    }
}

impl Default for DownloadStatus {
    fn default() -> (s: Self)
        ensures
            s.progress is None,
            s.stage is None,
    {
        DownloadStatus::new()
    }
}

/// The stages of a download, as the user sees them.
#[derive(Debug, Clone, Copy, PartialEq, Eq)]
pub enum DownloadStage {
    Downloading,
    Extracting,
    Installing,
}

/// The name shown for each stage.
pub open spec fn stage_label(stage: DownloadStage) -> Seq<char> {
    match stage {
        DownloadStage::Downloading => "downloading"@,
        DownloadStage::Extracting => "extracting"@,
        DownloadStage::Installing => "installing"@,
    }
}

impl DownloadStage {
    /// The name shown for this stage.
    pub fn label(self) -> (l: &'static str)
        ensures
            l@ == stage_label(self),
    {
        match self {
            DownloadStage::Downloading => "downloading",
            DownloadStage::Extracting => "extracting",
            DownloadStage::Installing => "installing",
        }
    }
}

/// The percentage of a download shown for `current` of `total` bytes: a
/// negative count counts as none, the quotient rounds down and is capped at
/// one hundred.
pub open spec fn progress_percent(current: int, total: int) -> int {
    let done = if current > 0 {
        current
    } else {
        0
    };
    let p = done * 100 / total;
    if p < 100 {
        p
    } else {
        100
    }
}

/// The percentage to show while downloading; `None` while the total size
/// is not known (zero or less).
pub fn download_progress(current: i64, total: i64) -> (r: Option<u8>)
    requires
        total <= 0 || current <= i64::MAX / 100,
    ensures
        total > 0 ==> r == Some(progress_percent(current as int, total as int) as u8),
        total <= 0 ==> r is None,
        r matches Some(p) ==> p <= 100,
{
    if total <= 0 {
        return None;
    }
    let done: i64 = if current > 0 {
        current
    } else {
        0
    };
    let p = done * 100 / total;
    assert(p >= 0) by (nonlinear_arith)
        requires
            done >= 0,
            total > 0,
            p == (done * 100) as int / (total as int),
    ;
    if p < 100 {
        Some(p as u8)
    } else {
        Some(100)
    }
}

} // verus!
