//! Starting the helper: reuse a helper that answers, else a process that
//! still runs, else spawn one and wait for it to announce its port.
//!
//! The launcher drives the machine: it performs each action that `step`
//! hands out and feeds back what came of it.

use vstd::prelude::*;

use crate::error::TerracottaError;
use crate::request::local_url;
use crate::runtime::{child_runs, state_url_of, ChildPoll, Runtime};

verus! {

/// How many times the port file is read before the start is given up.
pub const STARTUP_ATTEMPTS: u32 = 100;

/// Milliseconds between two reads of the port file.
pub const STARTUP_POLL_MILLIS: u64 = 300;

/// Seconds to wait for an already running helper to answer.
pub const PROBE_TIMEOUT_SECS: u64 = 2;

/// Where a start stands.
#[derive(Debug, Clone, Copy, PartialEq, Eq)]
pub enum StartPhase {
    /// Waiting to learn whether the helper is installed.
    Begin,
    /// Asking an already known helper whether it answers.
    Probing,
    /// Asking whether an already spawned process still runs.
    CheckingChild,
    /// Waiting for a new process to be spawned.
    Spawning,
    /// Reading the port file, the `attempt`-th time (from zero).
    ReadingPort { attempt: u32 },
    /// Asking whether the new process has exited, after that read.
    CheckingExit { attempt: u32 },
    /// Pausing before the next read.
    Sleeping { attempt: u32 },
    /// The start is over.
    Done,
}

/// What came of the last action.
pub enum StartEvent<C> {
    /// Whether the helper binary is installed.
    Installed(bool),
    /// Whether the known helper answered its `/state` address with success.
    Probed(bool),
    /// What polling the held process gave (`None`: no process is held, or
    /// the runtime could not be reached).
    ChildPolled(Option<ChildPoll>),
    /// The spawned process, or why spawning failed.
    Spawned(Result<C, String>),
    /// The port that the port file announces, where it could be read and
    /// names one.
    PortFileRead(Option<u64>),
    /// The pause is over.
    Slept,
}

/// The port that the helper announces in its port file: the unsigned
/// integer field `port` of the file's JSON text, where the text is a JSON
/// object that has one.
pub uninterp spec fn announced_port(text: Seq<char>) -> Option<u64>;

/// Reads the announced port out of the port file's text
/// (`serde_json::from_str` into a `serde_json::Value`, then its `port`
/// field as a `u64`).
///
/// Trusted: the contract says only that the result is the announced port of
/// the text, a function of the text alone; what JSON text announces which
/// port is left to serde_json and not stated here.
#[verifier::external_body]
fn port_file_port(text: &str) -> (port: Option<u64>)
    ensures
        port == announced_port(text@),
{
    match serde_json::from_str::<serde_json::Value>(text) {
        Ok(info) => match info.get("port") {
            Some(port) => port.as_u64(),
            None => None,
        },
        Err(_) => None,
    }
}

/// The port announced by a port file's contents (`None` where the file
/// could not be read).
pub open spec fn port_file_contents_port(contents: Option<String>) -> Option<u64> {
    match contents {
        Some(text) => announced_port(text@),
        None => None,
    }
}

impl<C> StartEvent<C> {
    /// What a read of the port file came to, from the file's contents
    /// (`None` where it could not be read).
    pub fn port_file_read(contents: Option<String>) -> (e: Self)
        ensures
            e == StartEvent::<C>::PortFileRead(port_file_contents_port(contents)),
    {
        match contents {
            Some(text) => StartEvent::PortFileRead(port_file_port(text.as_str())),
            None => StartEvent::PortFileRead(None),
        }
    }
}

/// What the launcher is to do next.
pub enum StartAction<C> {
    /// Ask `url` for the helper's state, waiting at most `timeout_secs`.
    Probe { url: String, timeout_secs: u64 },
    /// Poll the held process.
    PollChild,
    /// Remove a stale port file and spawn the helper.
    Spawn,
    /// Read the port file.
    ReadPortFile,
    /// Pause for `millis` milliseconds.
    Sleep { millis: u64 },
    /// The helper already runs: the start succeeded.
    Succeed,
    /// The helper announced its port: remove the port file; the start
    /// succeeded.
    Ready,
    /// The start failed.
    Fail(TerracottaError),
    /// The start timed out: kill and reap this process, where one is given,
    /// and fail with `StartupTimedOut`.
    Abort(Option<C>),
}

/// A start of the helper.
pub struct Startup {
    phase: StartPhase,
}

/// The read attempts stay below the limit.
pub open spec fn phase_wf(phase: StartPhase) -> bool {
    match phase {
        StartPhase::ReadingPort { attempt } => attempt < STARTUP_ATTEMPTS,
        StartPhase::CheckingExit { attempt } => attempt < STARTUP_ATTEMPTS,
        StartPhase::Sleeping { attempt } => attempt < STARTUP_ATTEMPTS,
        _ => true,
    }
}

/// A measure that every step lowers: a start ends after a bounded number of
/// steps.
pub open spec fn phase_rank(phase: StartPhase) -> nat {
    match phase {
        StartPhase::Begin => 304,
        StartPhase::Probing => 303,
        StartPhase::CheckingChild => 302,
        StartPhase::Spawning => 301,
        StartPhase::ReadingPort { attempt } => (3 * (100 - attempt)) as nat,
        StartPhase::CheckingExit { attempt } => (3 * (100 - attempt) - 1) as nat,
        StartPhase::Sleeping { attempt } => (3 * (100 - attempt) - 2) as nat,
        StartPhase::Done => 0,
    }
}

/// Whether `event` answers the action that a start in `phase` waits on.
pub open spec fn accepts_event<C>(phase: StartPhase, event: StartEvent<C>) -> bool {
    match phase {
        StartPhase::Begin => event is Installed,
        StartPhase::Probing => event is Probed,
        StartPhase::CheckingChild => event is ChildPolled,
        StartPhase::Spawning => event is Spawned,
        StartPhase::ReadingPort { .. } => event is PortFileRead,
        StartPhase::CheckingExit { .. } => event is ChildPolled,
        StartPhase::Sleeping { .. } => event is Slept,
        StartPhase::Done => false,
    }
}

/// Whether an action ends the start.
pub open spec fn is_final_action<C>(action: StartAction<C>) -> bool {
    action is Succeed || action is Ready || action is Fail || action is Abort
}

/// The effect of one step, in words of the phase, the runtime and the
/// action before and after.
pub open spec fn start_step<C>(
    phase: StartPhase,
    rt: Runtime<C>,
    event: StartEvent<C>,
    next: StartPhase,
    rt2: Runtime<C>,
    action: StartAction<C>,
) -> bool {
    match phase {
        StartPhase::Begin => match event {
            StartEvent::Installed(installed) => if !installed {
                &&& next == StartPhase::Done
                &&& rt2 == rt
                &&& action matches StartAction::Fail(e) && e is NotInstalled
            } else if rt.port is Some {
                &&& next == StartPhase::Probing
                &&& rt2 == rt
                &&& action matches StartAction::Probe { url, timeout_secs } && url@ == state_url_of(
                    rt.port->0,
                ) && timeout_secs == PROBE_TIMEOUT_SECS
            } else {
                &&& next == StartPhase::CheckingChild
                &&& rt2 == rt
                &&& action is PollChild
            },
            _ => false,
        },
        StartPhase::Probing => match event {
            StartEvent::Probed(healthy) => if healthy {
                &&& next == StartPhase::Done
                &&& rt2 == rt
                &&& action is Succeed
            } else {
                &&& next == StartPhase::CheckingChild
                &&& rt2.child is None
                &&& rt2.port is None
                &&& action is PollChild
            },
            _ => false,
        },
        StartPhase::CheckingChild => match event {
            StartEvent::ChildPolled(poll) => if child_runs(rt.child, poll) {
                &&& next == StartPhase::Done
                &&& rt2 == rt
                &&& action is Succeed
            } else {
                &&& next == StartPhase::Spawning
                &&& rt2.child is None
                &&& rt2.port is None
                &&& action is Spawn
            },
            _ => false,
        },
        StartPhase::Spawning => match event {
            StartEvent::Spawned(Ok(child)) => {
                &&& next == (StartPhase::ReadingPort { attempt: 0 })
                &&& rt2.child == Some(child)
                &&& rt2.port == rt.port
                &&& action is ReadPortFile
            },
            StartEvent::Spawned(Err(reason)) => {
                &&& next == StartPhase::Done
                &&& rt2 == rt
                &&& action matches StartAction::Fail(e) && e == TerracottaError::SpawnFailed(
                    reason,
                )
            },
            _ => false,
        },
        StartPhase::ReadingPort { attempt } => match event {
            StartEvent::PortFileRead(Some(port)) => {
                &&& next == StartPhase::Done
                &&& rt2.child == rt.child
                &&& rt2.port == Some(port as u16)
                &&& action is Ready
            },
            StartEvent::PortFileRead(None) => {
                &&& next == (StartPhase::CheckingExit { attempt })
                &&& rt2 == rt
                &&& action is PollChild
            },
            _ => false,
        },
        StartPhase::CheckingExit { attempt } => match event {
            StartEvent::ChildPolled(poll) => if rt.child is Some && poll == Some(
                ChildPoll::Exited,
            ) {
                &&& next == StartPhase::Done
                &&& rt2.child is None
                &&& rt2.port is None
                &&& action == StartAction::Abort(rt.child)
            } else {
                &&& next == (StartPhase::Sleeping { attempt })
                &&& rt2 == rt
                &&& action matches StartAction::Sleep { millis } && millis == STARTUP_POLL_MILLIS
            },
            _ => false,
        },
        StartPhase::Sleeping { attempt } => match event {
            StartEvent::Slept => if attempt + 1 < STARTUP_ATTEMPTS {
                &&& next == (StartPhase::ReadingPort { attempt: (attempt + 1) as u32 })
                &&& rt2 == rt
                &&& action is ReadPortFile
            } else {
                &&& next == StartPhase::Done
                &&& rt2.child is None
                &&& rt2.port is None
                &&& action == StartAction::Abort(rt.child)
            },
            _ => false,
        },
        StartPhase::Done => false,
    }
}

/// What each phase of a start knows of the runtime: a probe is only made
/// with a known port; while spawning there is neither process nor port; while
/// waiting for the port there is a process and still no port.
pub open spec fn phase_matches_runtime<C>(phase: StartPhase, rt: Runtime<C>) -> bool {
    match phase {
        StartPhase::Probing => rt.port is Some,
        StartPhase::Spawning => rt.child is None && rt.port is None,
        StartPhase::ReadingPort { .. } => rt.child is Some && rt.port is None,
        StartPhase::CheckingExit { .. } => rt.child is Some && rt.port is None,
        StartPhase::Sleeping { .. } => rt.child is Some && rt.port is None,
        _ => true,
    }
}

/// What a final action leaves behind: a success leaves a known port or a
/// process that was just seen running; `Ready` leaves the spawned process
/// and its port; a failure either came before the runtime was touched, or
/// leaves neither process nor port.
pub open spec fn start_outcome<C>(
    phase: StartPhase,
    rt: Runtime<C>,
    event: StartEvent<C>,
    action: StartAction<C>,
    rt2: Runtime<C>,
) -> bool {
    match action {
        StartAction::Succeed => rt2.port is Some || (rt2.child is Some && event
            == StartEvent::<C>::ChildPolled(Some(ChildPoll::Running))),
        StartAction::Ready => rt2.port is Some && rt2.child is Some,
        StartAction::Fail(_) => (phase == StartPhase::Begin && rt2 == rt) || (rt2.child is None
            && rt2.port is None),
        StartAction::Abort(_) => rt2.child is None && rt2.port is None,
        _ => true,
    }
}

/// One step keeps the phase in line with the runtime, bounds the read
/// attempts, lowers the rank, and ends only with the outcome above.
pub proof fn lemma_start_step<C>(
    phase: StartPhase,
    rt: Runtime<C>,
    event: StartEvent<C>,
    next: StartPhase,
    rt2: Runtime<C>,
    action: StartAction<C>,
)
    requires
        start_step(phase, rt, event, next, rt2, action),
        phase_wf(phase),
        phase_matches_runtime(phase, rt),
    ensures
        phase_wf(next),
        phase_matches_runtime(next, rt2),
        phase_rank(next) < phase_rank(phase),
        start_outcome(phase, rt, event, action, rt2),
        is_final_action(action) <==> next == StartPhase::Done,
{
}

/// A whole start, from its beginning: at every point the phase is in line
/// with the runtime, every final action leaves the outcome above, and the
/// start takes at most 304 steps.
pub proof fn lemma_start_run<C>(
    phases: Seq<StartPhase>,
    rts: Seq<Runtime<C>>,
    events: Seq<StartEvent<C>>,
    actions: Seq<StartAction<C>>,
)
    requires
        phases.len() == events.len() + 1,
        rts.len() == events.len() + 1,
        actions.len() == events.len(),
        phases[0] == StartPhase::Begin,
        forall|i: int|
            0 <= i < events.len() ==> #[trigger] start_step(
                phases[i],
                rts[i],
                events[i],
                phases[i + 1],
                rts[i + 1],
                actions[i],
            ),
    ensures
        forall|i: int| 0 <= i < phases.len() ==> #[trigger] phase_matches_runtime(phases[i], rts[i]),
        forall|i: int|
            0 <= i < events.len() ==> #[trigger] start_outcome(
                phases[i],
                rts[i],
                events[i],
                actions[i],
                rts[i + 1],
            ),
        events.len() <= phase_rank(StartPhase::Begin),
    decreases events.len(),
{
    if events.len() > 0 {
        let n = events.len() - 1;
        lemma_start_run(phases.take(n + 1), rts.take(n + 1), events.take(n), actions.take(n));
        lemma_start_prefix_wf(phases, rts, events, actions, n);
        lemma_start_prefix_wf(phases, rts, events, actions, n + 1);
        assert(start_step(phases[n], rts[n], events[n], phases[n + 1], rts[n + 1], actions[n]));
        assert(phase_matches_runtime(phases.take(n + 1)[n], rts.take(n + 1)[n]));
        lemma_start_step(phases[n], rts[n], events[n], phases[n + 1], rts[n + 1], actions[n]);
        assert forall|i: int| 0 <= i < phases.len() implies #[trigger] phase_matches_runtime(
            phases[i],
            rts[i],
        ) by {
            if i <= n {
                assert(phase_matches_runtime(phases.take(n + 1)[i], rts.take(n + 1)[i]));
            }
        }
        assert forall|i: int| 0 <= i < events.len() implies #[trigger] start_outcome(
            phases[i],
            rts[i],
            events[i],
            actions[i],
            rts[i + 1],
        ) by {
            if i < n {
                assert(start_outcome(
                    phases.take(n + 1)[i],
                    rts.take(n + 1)[i],
                    events.take(n)[i],
                    actions.take(n)[i],
                    rts.take(n + 1)[i + 1],
                ));
            }
        }
    }
}

/// Along a run, the read attempts stay bounded, the rank falls by at least
/// one per step, and the phase stays in line with the runtime.
proof fn lemma_start_prefix_wf<C>(
    phases: Seq<StartPhase>,
    rts: Seq<Runtime<C>>,
    events: Seq<StartEvent<C>>,
    actions: Seq<StartAction<C>>,
    k: int,
)
    requires
        0 <= k <= events.len(),
        phases.len() == events.len() + 1,
        rts.len() == events.len() + 1,
        actions.len() == events.len(),
        phases[0] == StartPhase::Begin,
        forall|i: int|
            0 <= i < events.len() ==> #[trigger] start_step(
                phases[i],
                rts[i],
                events[i],
                phases[i + 1],
                rts[i + 1],
                actions[i],
            ),
    ensures
        phase_wf(phases[k]),
        phase_matches_runtime(phases[k], rts[k]),
        phase_rank(phases[k]) + k <= phase_rank(StartPhase::Begin),
    decreases k,
{
    if k > 0 {
        let j = k - 1;
        lemma_start_prefix_wf(phases, rts, events, actions, j);
        assert(start_step(phases[j], rts[j], events[j], phases[j + 1], rts[j + 1], actions[j]));
        lemma_start_step(phases[j], rts[j], events[j], phases[j + 1], rts[j + 1], actions[j]);
    }
}

/// Whether `event` is what comes of performing `action`.
pub open spec fn answers<C>(action: StartAction<C>, event: StartEvent<C>) -> bool {
    match action {
        StartAction::Probe { .. } => event is Probed,
        StartAction::PollChild => event is ChildPolled,
        StartAction::Spawn => event is Spawned,
        StartAction::ReadPortFile => event is PortFileRead,
        StartAction::Sleep { .. } => event is Slept,
        _ => false,
    }
}

/// A start takes in whatever comes of the action it handed out: every
/// answer to a non-final action is accepted in the phase that follows (a
/// poll that found no process, `ChildPolled(None)`, included), and a start
/// that has not begun takes either answer on the installation.
pub proof fn lemma_start_accepts_answers<C>(
    phase: StartPhase,
    rt: Runtime<C>,
    event: StartEvent<C>,
    next: StartPhase,
    rt2: Runtime<C>,
    action: StartAction<C>,
    answer: StartEvent<C>,
)
    requires
        start_step(phase, rt, event, next, rt2, action),
        !is_final_action(action),
        answers(action, answer),
    ensures
        accepts_event(next, answer),
        accepts_event(StartPhase::Begin, StartEvent::<C>::Installed(true)),
        accepts_event(StartPhase::Begin, StartEvent::<C>::Installed(false)),
        forall|p: Option<ChildPoll>| #[trigger] accepts_event(
            StartPhase::CheckingChild,
            StartEvent::<C>::ChildPolled(p),
        ),
        forall|a: u32, p: Option<ChildPoll>| #[trigger] accepts_event(
            StartPhase::CheckingExit { attempt: a },
            StartEvent::<C>::ChildPolled(p),
        ),
{
}

impl View for Startup {
    type V = StartPhase;

    closed spec fn view(&self) -> StartPhase {
        self.phase
    }
}

impl Startup {
    #[verifier::type_invariant]
    spec fn inv(self) -> bool {
        phase_wf(self.phase)
    }

    /// A start that has not begun.
    pub fn new() -> (s: Self)
        ensures
            s@ == StartPhase::Begin,
    {
        Startup { phase: StartPhase::Begin }
    }

    /// Whether the start is over.
    pub fn is_done(&self) -> (done: bool)
        ensures
            done == (self@ == StartPhase::Done),
    {
        match self.phase {
            StartPhase::Done => true,
            _ => false,
        }
    }

    /// Whether `event` answers the action that this start waits on.
    pub fn accepts<C>(&self, event: &StartEvent<C>) -> (ok: bool)
        ensures
            ok == accepts_event(self@, *event),
    {
        match self.phase {
            StartPhase::Begin => matches!(event, StartEvent::Installed(_)),
            StartPhase::Probing => matches!(event, StartEvent::Probed(_)),
            StartPhase::CheckingChild => matches!(event, StartEvent::ChildPolled(_)),
            StartPhase::Spawning => matches!(event, StartEvent::Spawned(_)),
            StartPhase::ReadingPort { .. } => matches!(event, StartEvent::PortFileRead(_)),
            StartPhase::CheckingExit { .. } => matches!(event, StartEvent::ChildPolled(_)),
            StartPhase::Sleeping { .. } => matches!(event, StartEvent::Slept),
            StartPhase::Done => false,
        }
    }

    /// Takes in what came of the last action and hands out the next one.
    pub fn step<C>(&mut self, runtime: &mut Runtime<C>, event: StartEvent<C>) -> (action:
        StartAction<C>)
        requires
            accepts_event(old(self)@, event),
        ensures
            start_step(old(self)@, *old(runtime), event, final(self)@, *final(runtime), action),
            phase_rank(final(self)@) < phase_rank(old(self)@),
            is_final_action(action) <==> final(self)@ == StartPhase::Done,
    {
        proof {
            use_type_invariant(&*self);
        }
        match self.phase {
            StartPhase::Begin => match event {
                StartEvent::Installed(installed) => {
                    if !installed {
                        self.phase = StartPhase::Done;
                        StartAction::Fail(TerracottaError::NotInstalled)
                    } else {
                        match runtime.port {
                            Some(port) => {
                                self.phase = StartPhase::Probing;
                                StartAction::Probe {
                                    url: local_url(port, "/state"),
                                    timeout_secs: PROBE_TIMEOUT_SECS,
                                }
                            },
                            None => {
                                self.phase = StartPhase::CheckingChild;
                                StartAction::PollChild
                            },
                        }
                    }
                },
                _ => StartAction::PollChild,
            },
            StartPhase::Probing => match event {
                StartEvent::Probed(healthy) => {
                    if healthy {
                        self.phase = StartPhase::Done;
                        StartAction::Succeed
                    } else {
                        runtime.port = None;
                        runtime.child = None;
                        self.phase = StartPhase::CheckingChild;
                        StartAction::PollChild
                    }
                },
                _ => StartAction::PollChild,
            },
            StartPhase::CheckingChild => match event {
                StartEvent::ChildPolled(poll) => {
                    let running = runtime.child.is_some() && match poll {
                        Some(ChildPoll::Running) => true,
                        _ => false,
                    };
                    if running {
                        self.phase = StartPhase::Done;
                        StartAction::Succeed
                    } else {
                        runtime.child = None;
                        runtime.port = None;
                        self.phase = StartPhase::Spawning;
                        StartAction::Spawn
                    }
                },
                _ => StartAction::PollChild,
            },
            StartPhase::Spawning => match event {
                StartEvent::Spawned(Ok(child)) => {
                    runtime.child = Some(child);
                    self.phase = StartPhase::ReadingPort { attempt: 0 };
                    StartAction::ReadPortFile
                },
                StartEvent::Spawned(Err(reason)) => {
                    self.phase = StartPhase::Done;
                    StartAction::Fail(TerracottaError::SpawnFailed(reason))
                },
                _ => StartAction::PollChild,
            },
            StartPhase::ReadingPort { attempt } => match event {
                StartEvent::PortFileRead(Some(port)) => {
                    runtime.port = Some(port as u16);
                    self.phase = StartPhase::Done;
                    StartAction::Ready
                },
                StartEvent::PortFileRead(None) => {
                    self.phase = StartPhase::CheckingExit { attempt };
                    StartAction::PollChild
                },
                _ => StartAction::PollChild,
            },
            StartPhase::CheckingExit { attempt } => match event {
                StartEvent::ChildPolled(poll) => {
                    let exited = runtime.child.is_some() && match poll {
                        Some(ChildPoll::Exited) => true,
                        _ => false,
                    };
                    if exited {
                        self.phase = StartPhase::Done;
                        runtime.port = None;
                        StartAction::Abort(runtime.child.take())
                    } else {
                        self.phase = StartPhase::Sleeping { attempt };
                        StartAction::Sleep { millis: STARTUP_POLL_MILLIS }
                    }
                },
                _ => StartAction::PollChild,
            },
            StartPhase::Sleeping { attempt } => match event {
                StartEvent::Slept => {
                    if attempt + 1 < STARTUP_ATTEMPTS {
                        self.phase = StartPhase::ReadingPort { attempt: attempt + 1 };
                        StartAction::ReadPortFile
                    } else {
                        self.phase = StartPhase::Done;
                        runtime.port = None;
                        StartAction::Abort(runtime.child.take())
                    }
                },
                _ => StartAction::PollChild,
            },
            StartPhase::Done => StartAction::PollChild,
        }
    }
}

} // verus!
