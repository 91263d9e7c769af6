//! Downloading and installing a helper release: which version to fetch,
//! which package, and the order in which the download status moves through
//! its stages. The launcher performs each action and feeds back what came
//! of it.

use vstd::prelude::*;

use crate::download::{opt_string_view, progress_percent, stage_label, DownloadStage, DownloadStatus};
use crate::error::TerracottaError;
use crate::platform::{
    archive_name_of, artifact_name, artifact_url, non_blank, non_blank_of, release_asset,
    ReleaseAsset,
};
use crate::room::opt_view;
use crate::state::update_available_of;
use crate::text::trimmed;

verus! {

/// Where a download stands.
#[derive(Debug, Clone, Copy, PartialEq, Eq)]
pub enum InstallPhase {
    /// Not begun.
    Begin,
    /// Waiting for the latest release's version.
    AwaitingVersion,
    /// Fetching the package.
    Fetching,
    /// Unpacking the package and looking for the executable.
    Unpacking,
    /// Putting the executable and the version file in place.
    Installing,
    /// Over.
    Done,
}

/// What came of the last action.
pub enum InstallEvent {
    /// A download is asked for: whether a helper process is held, the
    /// requested version, and the platform key of this machine.
    Start { busy: bool, requested: Option<String>, platform: String },
    /// The latest release's version.
    LatestVersion(String),
    /// `current` of `total` bytes have been fetched.
    Progress { current: i64, total: i64 },
    /// The package has been fetched.
    Fetched,
    /// The package is unpacked; whether the executable was found in it.
    Unpacked { binary_found: bool },
    /// The executable and the version file are in place.
    Installed,
}

/// What the launcher is to do next.
pub enum InstallAction {
    /// Ask for the latest release's version.
    FetchLatestVersion,
    /// Fetch this package.
    Fetch(ReleaseAsset),
    /// Go on fetching.
    KeepFetching,
    /// Unpack the fetched package and look for the executable.
    Unpack,
    /// Install the executable found and record `version` as installed.
    Install { version: String },
    /// The download succeeded.
    Finish,
    /// The download failed.
    Fail(TerracottaError),
}

/// A download of the helper.
pub struct Installer {
    phase: InstallPhase,
    version: String,
    platform: String,
}

/// No download shows in the status.
pub open spec fn status_cleared(s: DownloadStatus) -> bool {
    s.progress is None && s.stage is None
}

/// The status shows `stage` at `progress`.
pub open spec fn status_shows(s: DownloadStatus, progress: u8, stage: DownloadStage) -> bool {
    s.progress == Some(progress) && opt_string_view(s.stage) == Some(stage_label(stage))
}

/// What each phase shows in the status: the stages come in the order
/// downloading, extracting, installing.
pub open spec fn phase_matches_status(phase: InstallPhase, s: DownloadStatus) -> bool {
    match phase {
        InstallPhase::AwaitingVersion => status_shows(s, 0, DownloadStage::Downloading),
        InstallPhase::Fetching => opt_string_view(s.stage) == Some(
            stage_label(DownloadStage::Downloading),
        ),
        InstallPhase::Unpacking => status_shows(s, 100, DownloadStage::Extracting),
        InstallPhase::Installing => status_shows(s, 100, DownloadStage::Installing),
        _ => true,
    }
}

/// What the package for `version` on `platform` leads to: a refusal, with
/// the status cleared, on an unsupported platform; else fetching it, with
/// `version` kept as the one to install.
pub open spec fn resolved(
    version: Seq<char>,
    platform: Seq<char>,
    next: InstallPhase,
    next_version: Seq<char>,
    s2: DownloadStatus,
    action: InstallAction,
) -> bool {
    if platform == "unsupported"@ {
        &&& next == InstallPhase::Done
        &&& status_cleared(s2)
        &&& action matches InstallAction::Fail(e) && e is UnsupportedPlatform
    } else {
        &&& next == InstallPhase::Fetching
        &&& next_version == version
        &&& action matches InstallAction::Fetch(a) && a.artifact@ == artifact_name(
            version,
            platform,
        ) && a.source_url@ == artifact_url(version, a.artifact@) && a.archive_name@
            == archive_name_of(version)
    }
}

/// The effect of one step of a download, in words of its view, the status
/// and the action before and after.
pub open spec fn install_step(
    d0: (InstallPhase, Seq<char>, Seq<char>),
    s0: DownloadStatus,
    event: InstallEvent,
    d1: (InstallPhase, Seq<char>, Seq<char>),
    s1: DownloadStatus,
    action: InstallAction,
) -> bool {
    &&& (action is Finish || action is Fail) == (d1.0 == InstallPhase::Done)
    &&& match (d0.0, event) {
        (InstallPhase::Begin, InstallEvent::Start { busy, requested, platform }) => if busy {
            &&& d1.0 == InstallPhase::Done
            &&& s1 == s0
            &&& action matches InstallAction::Fail(e) && e is AlreadyRunning
        } else {
            &&& d1.2 == platform@
            &&& match non_blank_of(opt_view(requested)) {
                Some(v) => {
                    &&& resolved(
                        v,
                        platform@,
                        d1.0,
                        d1.1,
                        s1,
                        action,
                    )
                    &&& platform@ != "unsupported"@ ==> status_shows(
                        s1,
                        0,
                        DownloadStage::Downloading,
                    )
                },
                None => {
                    &&& d1.0 == InstallPhase::AwaitingVersion
                    &&& status_shows(s1, 0, DownloadStage::Downloading)
                    &&& action is FetchLatestVersion
                },
            }
        },
        (InstallPhase::AwaitingVersion, InstallEvent::LatestVersion(v)) => {
            &&& resolved(
                v@,
                d0.2,
                d1.0,
                d1.1,
                s1,
                action,
            )
            &&& d0.2 != "unsupported"@ ==> s1 == s0
        },
        (InstallPhase::Fetching, InstallEvent::Progress { current, total }) => {
            &&& d1 == d0
            &&& action is KeepFetching
            &&& if total > 0 && current <= i64::MAX / 100 {
                &&& s1.progress == Some(
                    progress_percent(current as int, total as int) as u8,
                )
                &&& opt_string_view(s1.stage) == Some(
                    stage_label(DownloadStage::Downloading),
                )
            } else {
                s1 == s0
            }
        },
        (InstallPhase::Fetching, InstallEvent::Fetched) => {
            &&& d1.0 == InstallPhase::Unpacking
            &&& d1.1 == d0.1
            &&& status_shows(s1, 100, DownloadStage::Extracting)
            &&& action is Unpack
        },
        (InstallPhase::Unpacking, InstallEvent::Unpacked { binary_found }) => if binary_found {
            &&& d1.0 == InstallPhase::Installing
            &&& d1.1 == d0.1
            &&& status_shows(s1, 100, DownloadStage::Installing)
            &&& action matches InstallAction::Install { version } && version@ == d0.1
        } else {
            &&& d1.0 == InstallPhase::Done
            &&& status_cleared(s1)
            &&& action matches InstallAction::Fail(e) && e is BinaryNotFound
        },
        (InstallPhase::Installing, InstallEvent::Installed) => {
            &&& d1.0 == InstallPhase::Done
            &&& status_cleared(s1)
            &&& action is Finish
        },
        _ => false,
    }
}

impl View for Installer {
    type V = (InstallPhase, Seq<char>, Seq<char>);

    closed spec fn view(&self) -> (InstallPhase, Seq<char>, Seq<char>) {
        (self.phase, self.version@, self.platform@)
    }
}

/// Whether `event` answers the action that a download in `phase` waits on.
pub open spec fn install_accepts(phase: InstallPhase, event: InstallEvent) -> bool {
    match phase {
        InstallPhase::Begin => event is Start,
        InstallPhase::AwaitingVersion => event is LatestVersion,
        InstallPhase::Fetching => event is Progress || event is Fetched,
        InstallPhase::Unpacking => event is Unpacked,
        InstallPhase::Installing => event is Installed,
        InstallPhase::Done => false,
    }
}

impl Installer {
    /// A download that has not begun.
    pub fn new() -> (d: Self)
        ensures
            d@.0 == InstallPhase::Begin,
    {
        Installer { phase: InstallPhase::Begin, version: String::new(), platform: String::new() }
    }

    /// Whether the download is over.
    pub fn is_done(&self) -> (done: bool)
        ensures
            done == (self@.0 == InstallPhase::Done),
    {
        match self.phase {
            InstallPhase::Done => true,
            _ => false,
        }
    }

    /// Whether `event` answers the action that this download waits on.
    pub fn accepts(&self, event: &InstallEvent) -> (ok: bool)
        ensures
            ok == install_accepts(self@.0, *event),
    {
        match self.phase {
            InstallPhase::Begin => matches!(event, InstallEvent::Start { .. }),
            InstallPhase::AwaitingVersion => matches!(event, InstallEvent::LatestVersion(_)),
            InstallPhase::Fetching => matches!(
                event,
                InstallEvent::Progress { .. } | InstallEvent::Fetched
            ),
            InstallPhase::Unpacking => matches!(event, InstallEvent::Unpacked { .. }),
            InstallPhase::Installing => matches!(event, InstallEvent::Installed),
            InstallPhase::Done => false,
        }
    }

    /// Picks the package for `version`.
    fn resolve(&mut self, status: &mut DownloadStatus, version: String) -> (action: InstallAction)
        ensures
            resolved(
                version@,
                old(self)@.2,
                final(self)@.0,
                final(self)@.1,
                *final(status),
                action,
            ),
            old(self)@.2 != "unsupported"@ ==> *final(status) == *old(status),
            final(self)@.2 == old(self)@.2,
    {
        match release_asset(version.as_str(), self.platform.as_str()) {
            Ok(asset) => {
                self.phase = InstallPhase::Fetching;
                self.version = version;
                InstallAction::Fetch(asset)
            },
            Err(e) => {
                self.phase = InstallPhase::Done;
                status.clear();
                InstallAction::Fail(e)
            },
        }
    }

    /// Takes in what came of the last action, moves the status on, and hands
    /// out the next action.
    pub fn step(&mut self, status: &mut DownloadStatus, event: InstallEvent) -> (action:
        InstallAction)
        requires
            install_accepts(old(self)@.0, event),
        ensures
            phase_matches_status(old(self)@.0, *old(status)) ==> phase_matches_status(
                final(self)@.0,
                *final(status),
            ),
            install_step(old(self)@, *old(status), event, final(self)@, *final(status), action),
    {
        match self.phase {
            InstallPhase::Begin => match event {
                InstallEvent::Start { busy, requested, platform } => {
                    if busy {
                        self.phase = InstallPhase::Done;
                        return InstallAction::Fail(TerracottaError::AlreadyRunning);
                    }
                    status.begin();
                    self.platform = platform;
                    match non_blank(requested) {
                        Some(v) => self.resolve(status, v),
                        None => {
                            self.phase = InstallPhase::AwaitingVersion;
                            InstallAction::FetchLatestVersion
                        },
                    }
                },
                _ => InstallAction::KeepFetching,
            },
            InstallPhase::AwaitingVersion => match event {
                InstallEvent::LatestVersion(v) => self.resolve(status, v),
                _ => InstallAction::KeepFetching,
            },
            InstallPhase::Fetching => match event {
                InstallEvent::Progress { current, total } => {
                    if total > 0 && current <= i64::MAX / 100 {
                        status.report(current, total);
                    }
                    InstallAction::KeepFetching
                },
                InstallEvent::Fetched => {
                    status.extracting();
                    self.phase = InstallPhase::Unpacking;
                    InstallAction::Unpack
                },
                _ => InstallAction::KeepFetching,
            },
            InstallPhase::Unpacking => match event {
                InstallEvent::Unpacked { binary_found } => {
                    if binary_found {
                        status.installing();
                        self.phase = InstallPhase::Installing;
                        InstallAction::Install { version: self.version.clone() }
                    } else {
                        status.clear();
                        self.phase = InstallPhase::Done;
                        InstallAction::Fail(TerracottaError::BinaryNotFound)
                    }
                },
                _ => InstallAction::KeepFetching,
            },
            InstallPhase::Installing => match event {
                InstallEvent::Installed => {
                    status.clear();
                    self.phase = InstallPhase::Done;
                    InstallAction::Finish
                },
                _ => InstallAction::KeepFetching,
            },
            InstallPhase::Done => InstallAction::KeepFetching,
        }
    }

    /// Ends a download that failed outside the library's decisions: a
    /// download under way leaves the status cleared; one not begun, or
    /// already over, leaves it as it was.
    pub fn abandon(&mut self, status: &mut DownloadStatus)
        ensures
            final(self)@.0 == InstallPhase::Done,
            match old(self)@.0 {
                InstallPhase::Begin | InstallPhase::Done => *final(status) == *old(status),
                _ => status_cleared(*final(status)),
            },
    {
        match self.phase {
            InstallPhase::Begin | InstallPhase::Done => {},
            _ => status.clear(),
        }
        self.phase = InstallPhase::Done;
    }
}

/// The conditions of a download run: its views, statuses, events and
/// actions line up, it begins not begun, and each step is one of `step`'s.
pub open spec fn install_run(
    views: Seq<(InstallPhase, Seq<char>, Seq<char>)>,
    statuses: Seq<DownloadStatus>,
    events: Seq<InstallEvent>,
    actions: Seq<InstallAction>,
) -> bool {
    &&& views.len() == events.len() + 1
    &&& statuses.len() == events.len() + 1
    &&& actions.len() == events.len()
    &&& views[0].0 == InstallPhase::Begin
    &&& forall|i: int|
        0 <= i < events.len() ==> #[trigger] install_step(
            views[i],
            statuses[i],
            events[i],
            views[i + 1],
            statuses[i + 1],
            actions[i],
        )
}

/// The action installs version `v`.
pub open spec fn installs(action: InstallAction, v: Seq<char>) -> bool {
    action matches InstallAction::Install { version } && version@ == v
}

/// Some action of the run installs version `v`.
pub open spec fn installs_version(actions: Seq<InstallAction>, k: int, v: Seq<char>) -> bool {
    exists|j: int|
        0 <= j < k && #[trigger] installs(actions[j], v)
}

/// After a download of the requested version `v` has begun, every later
/// point is fetching, unpacking or installing `v`, or over; and while
/// installing, `v` has been handed out for installing.
proof fn lemma_install_prefix(
    views: Seq<(InstallPhase, Seq<char>, Seq<char>)>,
    statuses: Seq<DownloadStatus>,
    events: Seq<InstallEvent>,
    actions: Seq<InstallAction>,
    v: Seq<char>,
    k: int,
)
    requires
        install_run(views, statuses, events, actions),
        events.len() > 0,
        events[0] matches InstallEvent::Start { busy, requested, .. } && !busy && non_blank_of(
            opt_view(requested),
        ) == Some(v),
        1 <= k <= events.len(),
    ensures
        views[k].0 == InstallPhase::Fetching || views[k].0 == InstallPhase::Unpacking
            || views[k].0 == InstallPhase::Installing || views[k].0 == InstallPhase::Done,
        views[k].0 != InstallPhase::Done ==> views[k].1 == v,
        views[k].0 == InstallPhase::Installing ==> installs_version(actions, k, v),
    decreases k,
{
    if k == 1 {
        let z: int = 0;
        assert(install_step(views[z], statuses[z], events[z], views[z + 1], statuses[z + 1], actions[z]));
    } else {
        let j = k - 1;
        lemma_install_prefix(views, statuses, events, actions, v, j);
        assert(install_step(views[j], statuses[j], events[j], views[j + 1], statuses[j + 1], actions[j]));
        if views[k].0 == InstallPhase::Installing && views[j].0 == InstallPhase::Installing {
            let w = choose|w: int|
                0 <= w < j && #[trigger] installs(actions[w], v);
            assert(0 <= w < k && installs(actions[w], v));
        }
        if views[k].0 == InstallPhase::Installing && views[j].0 == InstallPhase::Unpacking {
            assert(installs(actions[j], v));
        }
    }
}

/// A download of a requested version `v` (not blank) that finishes has
/// handed out `v` for installing, and leaves the download status cleared.
pub proof fn lemma_install_run_requested(
    views: Seq<(InstallPhase, Seq<char>, Seq<char>)>,
    statuses: Seq<DownloadStatus>,
    events: Seq<InstallEvent>,
    actions: Seq<InstallAction>,
    v: Seq<char>,
)
    requires
        install_run(views, statuses, events, actions),
        events.len() > 0,
        events[0] matches InstallEvent::Start { busy, requested, .. } && !busy && non_blank_of(
            opt_view(requested),
        ) == Some(v),
        actions.last() is Finish,
    ensures
        trimmed(v).len() > 0,
        installs_version(actions, actions.len() as int, v),
        status_cleared(statuses.last()),
{
    let n = events.len() - 1;
    assert(install_step(views[n], statuses[n], events[n], views[n + 1], statuses[n + 1], actions[n]));
    if n > 0 {
        lemma_install_prefix(views, statuses, events, actions, v, n);
        assert(views[n].0 == InstallPhase::Installing);
        let w = choose|w: int|
            0 <= w < n && #[trigger] installs(actions[w], v);
        assert(0 <= w < actions.len() && installs(actions[w], v));
    }
}

/// Installing a requested version and then reading the state: where the
/// version file gives back what the install wrote (`read_back == v`), the
/// state shows `v` as installed, no download, and no update where `v` is the
/// latest release.
pub proof fn lemma_state_after_requested_install(
    views: Seq<(InstallPhase, Seq<char>, Seq<char>)>,
    statuses: Seq<DownloadStatus>,
    events: Seq<InstallEvent>,
    actions: Seq<InstallAction>,
    v: Seq<char>,
    read_back: Seq<char>,
    latest: Option<Seq<char>>,
)
    requires
        install_run(views, statuses, events, actions),
        events.len() > 0,
        events[0] matches InstallEvent::Start { busy, requested, .. } && !busy && non_blank_of(
            opt_view(requested),
        ) == Some(v),
        actions.last() is Finish,
        read_back == v,
    ensures
        installs_version(actions, actions.len() as int, v),
        non_blank_of(Some(read_back)) == Some(v),
        statuses.last().progress is None,
        statuses.last().stage is None,
        latest == Some(v) ==> !update_available_of(non_blank_of(Some(read_back)), latest),
{
    lemma_install_run_requested(views, statuses, events, actions, v);
}

/// After a download without a usable requested version has been told the
/// latest version `w`, every later point is fetching, unpacking or
/// installing `w`, or over.
proof fn lemma_install_latest_prefix(
    views: Seq<(InstallPhase, Seq<char>, Seq<char>)>,
    statuses: Seq<DownloadStatus>,
    events: Seq<InstallEvent>,
    actions: Seq<InstallAction>,
    w: Seq<char>,
    k: int,
)
    requires
        install_run(views, statuses, events, actions),
        events.len() >= 2,
        events[0] matches InstallEvent::Start { busy, requested, .. } && !busy && non_blank_of(
            opt_view(requested),
        ) is None,
        events[1] matches InstallEvent::LatestVersion(latest) && latest@ == w,
        2 <= k <= events.len(),
    ensures
        views[k].0 == InstallPhase::Fetching || views[k].0 == InstallPhase::Unpacking
            || views[k].0 == InstallPhase::Installing || views[k].0 == InstallPhase::Done,
        views[k].0 != InstallPhase::Done ==> views[k].1 == w,
    decreases k,
{
    let z: int = 0;
    assert(install_step(views[z], statuses[z], events[z], views[z + 1], statuses[z + 1], actions[z]));
    let j = k - 1;
    assert(install_step(views[j], statuses[j], events[j], views[j + 1], statuses[j + 1], actions[j]));
    if k > 2 {
        lemma_install_latest_prefix(views, statuses, events, actions, w, j);
    }
}

/// A download without a usable requested version installs the latest
/// version it was told: every `Install` action of the run hands out exactly
/// the version that the `LatestVersion` event supplied.
pub proof fn lemma_install_run_latest(
    views: Seq<(InstallPhase, Seq<char>, Seq<char>)>,
    statuses: Seq<DownloadStatus>,
    events: Seq<InstallEvent>,
    actions: Seq<InstallAction>,
    w: Seq<char>,
)
    requires
        install_run(views, statuses, events, actions),
        events.len() >= 2,
        events[0] matches InstallEvent::Start { busy, requested, .. } && !busy && non_blank_of(
            opt_view(requested),
        ) is None,
        events[1] matches InstallEvent::LatestVersion(latest) && latest@ == w,
    ensures
        forall|j: int|
            0 <= j < actions.len() && #[trigger] actions[j] is Install ==> installs(actions[j], w),
{
    assert forall|j: int|
        0 <= j < actions.len() && #[trigger] actions[j] is Install implies installs(
            actions[j],
            w,
        ) by {
        let z: int = 0;
        assert(install_step(views[z], statuses[z], events[z], views[z + 1], statuses[z + 1], actions[z]));
        assert(install_step(views[j], statuses[j], events[j], views[j + 1], statuses[j + 1], actions[j]));
        if j >= 2 {
            lemma_install_latest_prefix(views, statuses, events, actions, w, j);
        }
    }
}

/// A download of a requested version `v` (not blank) installs `v`: every
/// `Install` action of the run hands out exactly `v`.
pub proof fn lemma_install_run_requested_only(
    views: Seq<(InstallPhase, Seq<char>, Seq<char>)>,
    statuses: Seq<DownloadStatus>,
    events: Seq<InstallEvent>,
    actions: Seq<InstallAction>,
    v: Seq<char>,
)
    requires
        install_run(views, statuses, events, actions),
        events.len() > 0,
        events[0] matches InstallEvent::Start { busy, requested, .. } && !busy && non_blank_of(
            opt_view(requested),
        ) == Some(v),
    ensures
        forall|j: int|
            0 <= j < actions.len() && #[trigger] actions[j] is Install ==> installs(actions[j], v),
{
    assert forall|j: int|
        0 <= j < actions.len() && #[trigger] actions[j] is Install implies installs(
            actions[j],
            v,
        ) by {
        assert(install_step(views[j], statuses[j], events[j], views[j + 1], statuses[j + 1], actions[j]));
        if j >= 1 {
            lemma_install_prefix(views, statuses, events, actions, v, j);
        }
    }
}

} // verus!
