//! A launch from the spawn of the process to the daemon's readiness: what
//! is awaited at each point, and what follows what comes.

use crate::daemon::announcement::{announced_port, port_reading, read_announced_port, FirstLine};
use crate::daemon::error::DaemonError;
use crate::daemon::health::{
    readiness_step, wait_for_daemon, HealthReply, ReadinessEvent, ReadinessStep,
    READINESS_INTERVAL_MS, READINESS_TIMEOUT_MS,
};
use crate::daemon::manager::{
    DaemonInfo, DaemonInfoView, DaemonManager, DaemonManagerView, ExitProbe,
};
use crate::daemon::paths::DaemonPaths;
use vstd::prelude::*;

verus! {

/// How far a launch has come.
#[derive(Debug, Clone, Copy, PartialEq, Eq, Structural)]
pub enum LaunchPhase {
    /// The process is spawned, and the first line of its output is awaited.
    Announcing { pid: u32 },
    /// The process has announced its port, and a first look at it is
    /// awaited.
    Looking { pid: u32, port: u16 },
    /// The process is tracked, and an answer of its health endpoint is
    /// awaited.
    Asking { pid: u32, port: u16 },
    /// The process is tracked, and the pause before the next question to its
    /// health endpoint is on.
    Pausing { pid: u32, port: u16 },
    /// The launch is over, well or not.
    Over,
}

/// What the caller that runs a launch reports.
#[derive(Debug, Clone)]
pub enum LaunchEvent {
    /// What came of reading the first line of the output.
    FirstLine(FirstLine),
    /// What a look at the exit status of the process showed.
    Looked(ExitProbe),
    /// What came of a question to the health endpoint.
    Answer(HealthReply),
    /// The pause has passed, so many milliseconds after the first question,
    /// counted as `crate::daemon::clock::elapsed_millis` counts them.
    Round { elapsed_ms: u64 },
}

/// What the caller that runs a launch does next.
#[derive(Debug)]
pub enum LaunchStep {
    /// Read the first line of the process's output, and report it.
    ReadFirstLine,
    /// Keep reading what the process writes, so that it never has to wait
    /// for its output to be taken; then look at its exit status, and report.
    Look,
    /// Ask the health endpoint, and report. The process is tracked by now.
    Ask,
    /// Pause for this many milliseconds, and report the time.
    Pause(u64),
    /// The daemon is ready: this is its record, and the process is to be
    /// watched from now on.
    Started(DaemonInfo),
    /// The launch has failed with this error. A process that is tracked
    /// stays tracked and keeps running; one that is not, is not.
    Fail(DaemonError),
    /// The launch was over before.
    Over,
}

/// A launch as plain values.
pub struct LaunchView {
    pub database_path: Seq<char>,
    pub socket_path: Seq<char>,
    pub branch: Seq<char>,
    pub phase: LaunchPhase,
}

/// A launch that is under way: what the daemon was launched with, and how
/// far it has come.
#[derive(Debug)]
pub struct Launch {
    paths: DaemonPaths,
    branch: String,
    phase: LaunchPhase,
}

impl View for Launch {
    type V = LaunchView;

    closed spec fn view(&self) -> LaunchView {
        LaunchView {
            database_path: self.paths.database_path@,
            socket_path: self.paths.socket_path@,
            branch: self.branch@,
            phase: self.phase,
        }
    }
}

impl LaunchView {
    /// The record of the daemon of this launch, once it runs as process
    /// `pid` and has announced `port`.
    pub open spec fn info(self, pid: u32, port: u16) -> DaemonInfoView {
        DaemonInfoView {
            port,
            pid,
            database_path: self.database_path,
            socket_path: self.socket_path,
            branch_id: self.branch,
            is_running: true,
        }
    }

    /// The launch in another phase.
    pub open spec fn at(self, phase: LaunchPhase) -> LaunchView {
        LaunchView { phase, ..self }
    }
}

/// What is asked of the caller while a launch waits in a phase.
pub open spec fn awaited(phase: LaunchPhase, step: LaunchStep) -> bool {
    match phase {
        LaunchPhase::Announcing { .. } => step is ReadFirstLine,
        LaunchPhase::Looking { .. } => step is Look,
        LaunchPhase::Asking { .. } => step is Ask,
        LaunchPhase::Pausing { .. } => step == LaunchStep::Pause(READINESS_INTERVAL_MS),
        LaunchPhase::Over => step is Over,
    }
}

/// The port that a first line announces, if one was read and announces one.
pub open spec fn port_of(first: FirstLine) -> Option<u16> {
    match first {
        FirstLine::Line(line) => announced_port(line@),
        _ => None,
    }
}

/// What one event makes of a launch and of the supervisor's state.
///
/// The first line has to announce a port: without one the launch fails, and
/// nothing is tracked. The process that announced one is looked at. If it
/// has exited the launch fails, and nothing is tracked; else it is tracked
/// from here on, and the health endpoint is asked. An answer that reports
/// success ends the launch well. After any other answer comes a pause, and
/// after the pause another question, unless the timeout has passed, which
/// fails the launch and changes nothing else: the process stays tracked.
/// What is reported out of turn changes nothing, and what was awaited is
/// asked for again.
pub open spec fn launch_step(
    before: LaunchView,
    state: DaemonManagerView,
    event: LaunchEvent,
    step: LaunchStep,
    after: LaunchView,
    state_after: DaemonManagerView,
) -> bool {
    match (before.phase, event) {
        (LaunchPhase::Announcing { pid }, LaunchEvent::FirstLine(first)) => {
            &&& state_after == state
            &&& match port_of(first) {
                Some(port) => step is Look && after == before.at(LaunchPhase::Looking { pid, port }),
                None => step matches LaunchStep::Fail(why) && port_reading(first, Err(why))
                    && after == before.at(LaunchPhase::Over),
            }
        },
        (LaunchPhase::Looking { pid, port }, LaunchEvent::Looked(probe)) => match probe {
            ExitProbe::Exited(status) => {
                &&& step == LaunchStep::Fail(DaemonError::ExitedEarly(status))
                &&& after == before.at(LaunchPhase::Over)
                &&& state_after == state
            },
            _ => {
                &&& step is Ask
                &&& after == before.at(LaunchPhase::Asking { pid, port })
                &&& state_after == state.track(before.info(pid, port), probe)
            },
        },
        (LaunchPhase::Asking { pid, port }, LaunchEvent::Answer(reply)) => {
            &&& state_after == state
            &&& if readiness_step(ReadinessEvent::Answer(reply)) is Ready {
                &&& step matches LaunchStep::Started(info)
                &&& info@ == before.info(pid, port)
                &&& after == before.at(LaunchPhase::Over)
            } else {
                &&& step == LaunchStep::Pause(READINESS_INTERVAL_MS)
                &&& after == before.at(LaunchPhase::Pausing { pid, port })
            }
        },
        (LaunchPhase::Pausing { pid, port }, LaunchEvent::Round { elapsed_ms }) => {
            &&& state_after == state
            &&& if readiness_step(ReadinessEvent::Round { elapsed_ms }) is Ask {
                step is Ask && after == before.at(LaunchPhase::Asking { pid, port })
            } else {
                step == LaunchStep::Fail(DaemonError::NotReady) && after == before.at(
                    LaunchPhase::Over,
                )
            }
        },
        _ => state_after == state && after == before && awaited(before.phase, step),
    }
}

impl Launch {
    /// The launch of a daemon that was spawned as process `pid`, with
    /// `paths` for its data and `branch` for its identity tag.
    pub fn new(paths: DaemonPaths, branch: String, pid: u32) -> (launch: Self)
        ensures
            launch@ == (LaunchView {
                database_path: paths.database_path@,
                socket_path: paths.socket_path@,
                branch: branch@,
                phase: LaunchPhase::Announcing { pid },
            }),
    {
        Launch { paths, branch, phase: LaunchPhase::Announcing { pid } }
    }

    /// How far the launch has come.
    pub fn phase(&self) -> (phase: LaunchPhase)
        ensures
            phase == self@.phase,
    {
        self.phase
    }

    /// Whether the process of this launch is tracked by now: it is from the
    /// first look on that showed it alive, until the launch is over.
    pub fn is_tracked(&self) -> (kept: bool)
        ensures
            kept == (self@.phase is Asking || self@.phase is Pausing),
    {
        match self.phase {
            LaunchPhase::Asking { .. } => true,
            LaunchPhase::Pausing { .. } => true,
            _ => false,
        }
    }

    /// The port that the process has announced, once it has.
    pub fn port(&self) -> (port: Option<u16>)
        ensures
            port == (match self@.phase {
                LaunchPhase::Looking { port, .. } => Some(port),
                LaunchPhase::Asking { port, .. } => Some(port),
                LaunchPhase::Pausing { port, .. } => Some(port),
                _ => None,
            }),
    {
        match self.phase {
            LaunchPhase::Looking { pid: _, port } => Some(port),
            LaunchPhase::Asking { pid: _, port } => Some(port),
            LaunchPhase::Pausing { pid: _, port } => Some(port),
            _ => None,
        }
    }

    fn record(&self, pid: u32, port: u16) -> (info: DaemonInfo)
        ensures
            info@ == self@.info(pid, port),
    {
        DaemonInfo {
            port,
            pid,
            database_path: self.paths.database_path.clone(),
            socket_path: self.paths.socket_path.clone(),
            branch_id: self.branch.clone(),
            is_running: true,
        }
    }

    /// What the launch waits for.
    pub fn awaits(&self) -> (step: LaunchStep)
        ensures
            awaited(self@.phase, step),
    {
        match self.phase {
            LaunchPhase::Announcing { .. } => LaunchStep::ReadFirstLine,
            LaunchPhase::Looking { .. } => LaunchStep::Look,
            LaunchPhase::Asking { .. } => LaunchStep::Ask,
            LaunchPhase::Pausing { .. } => LaunchStep::Pause(READINESS_INTERVAL_MS),
            LaunchPhase::Over => LaunchStep::Over,
        }
    }

    /// Takes one event of the launch, says what to do next, and has
    /// `manager` take note of the process once it is seen alive.
    pub fn step(&mut self, manager: &mut DaemonManager, event: LaunchEvent) -> (step: LaunchStep)
        ensures
            launch_step(old(self)@, old(manager)@, event, step, final(self)@, final(manager)@),
    {
        match (self.phase, event) {
            (LaunchPhase::Announcing { pid }, LaunchEvent::FirstLine(first)) => {
                match read_announced_port(first) {
                    Ok(port) => {
                        self.phase = LaunchPhase::Looking { pid, port };
                        LaunchStep::Look
                    },
                    Err(why) => {
                        self.phase = LaunchPhase::Over;
                        LaunchStep::Fail(why)
                    },
                }
            },
            (LaunchPhase::Looking { pid, port }, LaunchEvent::Looked(probe)) => {
                match manager.track(self.record(pid, port), probe) {
                    Ok(_) => {
                        self.phase = LaunchPhase::Asking { pid, port };
                        LaunchStep::Ask
                    },
                    Err(why) => {
                        self.phase = LaunchPhase::Over;
                        LaunchStep::Fail(why)
                    },
                }
            },
            (LaunchPhase::Asking { pid, port }, LaunchEvent::Answer(reply)) => {
                match wait_for_daemon(ReadinessEvent::Answer(reply)) {
                    ReadinessStep::Ready => {
                        self.phase = LaunchPhase::Over;
                        LaunchStep::Started(self.record(pid, port))
                    },
                    _ => {
                        self.phase = LaunchPhase::Pausing { pid, port };
                        LaunchStep::Pause(READINESS_INTERVAL_MS)
                    },
                }
            },
            (LaunchPhase::Pausing { pid, port }, LaunchEvent::Round { elapsed_ms }) => {
                match wait_for_daemon(ReadinessEvent::Round { elapsed_ms }) {
                    ReadinessStep::Ask => {
                        self.phase = LaunchPhase::Asking { pid, port };
                        LaunchStep::Ask
                    },
                    _ => {
                        self.phase = LaunchPhase::Over;
                        LaunchStep::Fail(DaemonError::NotReady)
                    },
                }
            },
            _ => self.awaits(),
        }
    }
}

// ---------------------------------------------------------------------------
// What holds of every launch
// ---------------------------------------------------------------------------

/// A launch whose process does not announce a port fails, whether its first
/// line is another, its output has ended or could not be read, and the
/// supervisor's state is what it was: no process is left tracked.
pub proof fn lemma_failed_announcement_tracks_nothing(
    before: LaunchView,
    state: DaemonManagerView,
    first: FirstLine,
    step: LaunchStep,
    after: LaunchView,
    state_after: DaemonManagerView,
)
    requires
        before.phase is Announcing,
        port_of(first) is None,
        launch_step(before, state, LaunchEvent::FirstLine(first), step, after, state_after),
    ensures
        step is Fail,
        after.phase is Over,
        state_after == state,
        first is Closed ==> step->Fail_0 is StdoutClosed,
        first is Failed ==> step->Fail_0 is StdoutUnreadable,
        first is Line ==> step->Fail_0 is PortNotReported,
{
}

/// A process is tracked by a launch only after it has announced its port
/// and was seen alive: that step makes it the process that is tracked, with
/// its record, and no other step of a launch changes the supervisor's state.
pub proof fn lemma_only_a_live_process_is_tracked(
    before: LaunchView,
    state: DaemonManagerView,
    event: LaunchEvent,
    step: LaunchStep,
    after: LaunchView,
    state_after: DaemonManagerView,
)
    requires
        launch_step(before, state, event, step, after, state_after),
    ensures
        state_after != state ==> before.phase is Looking && event is Looked && !(event->Looked_0
            is Exited),
        match (before.phase, event) {
            (LaunchPhase::Looking { pid, port }, LaunchEvent::Looked(probe)) => !(probe
                is Exited) ==> state_after.process == Some(pid) && state_after.info == Some(
                before.info(pid, port),
            ),
            _ => true,
        },
{
}

/// When the health endpoint does not answer with success in time, the launch
/// fails with the error for that, and nothing else happens: the process
/// stays tracked, and is neither stopped nor killed.
pub proof fn lemma_readiness_timeout_changes_nothing(
    before: LaunchView,
    state: DaemonManagerView,
    elapsed_ms: u64,
    step: LaunchStep,
    after: LaunchView,
    state_after: DaemonManagerView,
)
    requires
        before.phase is Pausing,
        elapsed_ms >= READINESS_TIMEOUT_MS,
        launch_step(before, state, LaunchEvent::Round { elapsed_ms }, step, after, state_after),
    ensures
        step == LaunchStep::Fail(DaemonError::NotReady),
        state_after == state,
{
}

/// A launch that is over stays over, and changes nothing any more.
pub proof fn lemma_launch_over_is_final(
    before: LaunchView,
    state: DaemonManagerView,
    event: LaunchEvent,
    step: LaunchStep,
    after: LaunchView,
    state_after: DaemonManagerView,
)
    requires
        before.phase is Over,
        launch_step(before, state, event, step, after, state_after),
    ensures
        step is Over,
        after == before,
        state_after == state,
{
}

} // verus!
