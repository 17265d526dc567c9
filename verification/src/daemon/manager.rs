//! The supervisor itself: the process it tracks, the record it keeps, and
//! what it decides when the daemon is started, watched and stopped.

use crate::branch::{branch_id, get_branch_id};
use crate::daemon::error::DaemonError;
use crate::daemon::health::{check_daemon_health, health_verdict, HealthReply};
use crate::text::{
    ascii_lowercase, decimal_text, parse_u16, push_decimal, str_to_u16, trim,
    trimmed_lowercase_is,
};
use vstd::prelude::*;

verus! {

/// The variable that switches launching off when it reads `false`.
pub const AUTOLAUNCH_VAR: &'static str = "HUMANLAYER_WUI_AUTOLAUNCH_DAEMON";

/// How long the daemon has to leave after it was asked to, in milliseconds.
pub const SHUTDOWN_TIMEOUT_MS: u64 = 15000;

/// The pause between two looks at a daemon that is leaving, in milliseconds.
pub const SHUTDOWN_INTERVAL_MS: u64 = 100;

/// The pause between two looks at a running daemon, in milliseconds.
pub const LIVENESS_INTERVAL_MS: u64 = 1000;

/// How to reach a daemon, and whether it is believed to run.
#[derive(Debug, PartialEq, Eq)]
pub struct DaemonInfo {
    pub port: u16,
    pub pid: u32,
    pub database_path: String,
    pub socket_path: String,
    pub branch_id: String,
    pub is_running: bool,
}

/// A `DaemonInfo` as plain values.
pub struct DaemonInfoView {
    pub port: u16,
    pub pid: u32,
    pub database_path: Seq<char>,
    pub socket_path: Seq<char>,
    pub branch_id: Seq<char>,
    pub is_running: bool,
}

impl View for DaemonInfo {
    type V = DaemonInfoView;

    open spec fn view(&self) -> DaemonInfoView {
        DaemonInfoView {
            port: self.port,
            pid: self.pid,
            database_path: self.database_path@,
            socket_path: self.socket_path@,
            branch_id: self.branch_id@,
            is_running: self.is_running,
        }
    }
}

impl DeepView for DaemonInfo {
    type V = DaemonInfoView;

    open spec fn deep_view(&self) -> DaemonInfoView {
        self@
    }
}

impl Clone for DaemonInfo {
    fn clone(&self) -> (copy: Self)
        ensures
            copy == *self,
    {
        DaemonInfo {
            port: self.port,
            pid: self.pid,
            database_path: self.database_path.clone(),
            socket_path: self.socket_path.clone(),
            branch_id: self.branch_id.clone(),
            is_running: self.is_running,
        }
    }
}

/// What the process environment and the surroundings say about a start.
#[derive(Debug, Clone)]
pub struct Surroundings {
    /// The value of `AUTOLAUNCH_VAR`.
    pub autolaunch: Option<String>,
    /// The value of `HTTP_PORT_VAR`.
    pub http_port: Option<String>,
    /// The value of `SOCKET_VAR`.
    pub socket: Option<String>,
    /// The value of `DATABASE_VAR`.
    pub database_path: Option<String>,
    /// The value of `VERSION_VAR`.
    pub version_override: Option<String>,
    /// The branch that version control reports, where it was asked and
    /// answered.
    pub git_branch: Option<String>,
}

/// What a non-blocking look at the exit status of the process showed.
#[derive(Debug, Clone)]
pub enum ExitProbe {
    /// The process still runs.
    Running,
    /// The process has exited, with the status that is described.
    Exited(String),
    /// The look itself failed, for the reason given.
    Failed(String),
}

/// Whether launching is switched off: the variable, trimmed and in lower
/// case, reads `false`.
pub open spec fn autolaunch_disabled(value: Option<Seq<char>>) -> bool {
    match value {
        Some(text) => ascii_lowercase(trim(text)) == "false"@,
        None => false,
    }
}

/// The port that is configured, where the variable holds one.
pub open spec fn configured_port(value: Option<Seq<char>>) -> Option<u16> {
    match value {
        Some(text) => parse_u16(text),
        None => None,
    }
}

/// `chosen` where there is one, else `fallback`.
pub open spec fn or_default(chosen: Option<Seq<char>>, fallback: Seq<char>) -> Seq<char> {
    match chosen {
        Some(text) => text,
        None => fallback,
    }
}

/// The record of a daemon that somebody else manages and that listens on
/// `port`: what is configured, and for the rest the daemon's own defaults.
pub open spec fn external_info(
    port: u16,
    about: Surroundings,
    is_dev: bool,
    branch_override: Option<Seq<char>>,
) -> DaemonInfoView {
    DaemonInfoView {
        port,
        pid: 0,
        database_path: or_default(about.database_path.deep_view(), "~/.humanlayer/daemon.db"@),
        socket_path: or_default(
            about.socket.deep_view(),
            "~/.humanlayer/daemon-"@ + decimal_text(port as nat) + ".sock"@,
        ),
        branch_id: or_default(
            about.version_override.deep_view(),
            branch_id(is_dev, branch_override, about.git_branch.deep_view()),
        ),
        is_running: true,
    }
}

/// The record of a daemon that was found already listening on `port`.
pub open spec fn adopted_info(port: u16) -> DaemonInfoView {
    DaemonInfoView {
        port,
        pid: 0,
        database_path: "external"@,
        socket_path: "external"@,
        branch_id: "external"@,
        is_running: true,
    }
}

/// What the supervisor decides when it is asked to start the daemon.
#[derive(Debug)]
pub enum StartDecision {
    /// A process is tracked already: this is its record, and nothing is
    /// spawned.
    Cached(DaemonInfo),
    /// Launching is switched off: this record of the daemon that somebody
    /// else manages is now the supervisor's.
    External(DaemonInfo),
    /// Launching is switched off, but where the daemon listens is not known.
    Refused(DaemonError),
    /// A port is configured: ask its health endpoint, and hand the answer to
    /// `adopt_existing`.
    Probe(u16),
    /// Launch a daemon.
    Launch,
}

/// A `StartDecision` as plain values.
pub enum StartDecisionView {
    Cached(DaemonInfoView),
    External(DaemonInfoView),
    Refused(DaemonError),
    Probe(u16),
    Launch,
}

impl View for StartDecision {
    type V = StartDecisionView;

    open spec fn view(&self) -> StartDecisionView {
        match self {
            StartDecision::Cached(info) => StartDecisionView::Cached(info@),
            StartDecision::External(info) => StartDecisionView::External(info@),
            StartDecision::Refused(why) => StartDecisionView::Refused(*why),
            StartDecision::Probe(port) => StartDecisionView::Probe(*port),
            StartDecision::Launch => StartDecisionView::Launch,
        }
    }
}

/// A stop that has begun: the process that was tracked, and is to be
/// terminated.
#[derive(Debug, PartialEq, Eq)]
pub struct Shutdown {
    pid: u32,
}

impl DeepView for Shutdown {
    type V = u32;

    closed spec fn deep_view(&self) -> u32 {
        self.pid
    }
}

impl Shutdown {
    /// The id of the process to terminate.
    pub fn pid(&self) -> (pid: u32)
        ensures
            pid == self.deep_view(),
    {
        self.pid
    }
}

/// What the caller that stops the daemon reports.
#[derive(Debug, Clone)]
pub enum StopEvent {
    /// The request to terminate was sent.
    Signalled,
    /// The request to terminate could not be sent, for the reason given.
    SignalFailed(String),
    /// A look at the process showed this, so many milliseconds after the
    /// request was sent, counted as `crate::daemon::clock::elapsed_millis_begun`
    /// counts them.
    Looked { probe: ExitProbe, elapsed_ms: u64 },
    /// The process was killed and waited for.
    Killed,
    /// The process could not be killed, for the reason given.
    KillFailed(String),
}

/// What the caller that stops the daemon does next.
#[derive(Debug, Clone)]
pub enum StopStep {
    /// Look at the process, and report what the look shows.
    Look,
    /// Pause for this many milliseconds, then look again.
    Pause(u64),
    /// The daemon has had its time: kill it, wait for it, and report.
    Kill,
    /// The stop has ended well.
    Finished,
    /// Give up with this error.
    Fail(DaemonError),
}

/// What the watcher of a running daemon does after a look at it.
#[derive(Debug, Clone, Copy, PartialEq, Eq, Structural)]
pub enum WatchStep {
    /// Look again after `LIVENESS_INTERVAL_MS`.
    Continue,
    /// Stop watching.
    Stop,
}

/// The supervisor's state as plain values: the process it tracks, by its id,
/// and the last record it made.
pub struct DaemonManagerView {
    pub process: Option<u32>,
    pub info: Option<DaemonInfoView>,
}

impl DaemonManagerView {
    /// The state without the process that a look has shown to have exited.
    pub open spec fn without_exited(self, probe: Option<ExitProbe>) -> DaemonManagerView {
        if self.process is Some && probe is Some && probe->0 is Exited {
            DaemonManagerView { process: None, info: self.info }
        } else {
            self
        }
    }

    /// The decision on a request to start, and the state after it, where
    /// `probe` is what a fresh look at the process that is tracked shows.
    /// While that process runs and has its record, the record is the answer
    /// and nothing changes. Else a process that has exited is no longer
    /// tracked, and the configuration decides what is to be done.
    pub open spec fn start(
        self,
        about: Surroundings,
        is_dev: bool,
        branch_override: Option<Seq<char>>,
        probe: Option<ExitProbe>,
    ) -> (StartDecisionView, DaemonManagerView) {
        let state = self.without_exited(probe);
        if self.is_running(probe) && self.info is Some {
            (StartDecisionView::Cached(self.info->0), self)
        } else if autolaunch_disabled(about.autolaunch.deep_view()) {
            match configured_port(about.http_port.deep_view()) {
                Some(port) => {
                    let info = external_info(port, about, is_dev, branch_override);
                    (
                        StartDecisionView::External(info),
                        DaemonManagerView { process: state.process, info: Some(info) },
                    )
                },
                None => (StartDecisionView::Refused(DaemonError::ExternalPortMissing), state),
            }
        } else {
            match configured_port(about.http_port.deep_view()) {
                Some(port) => (StartDecisionView::Probe(port), state),
                None => (StartDecisionView::Launch, state),
            }
        }
    }

    /// The state after the health endpoint on `port` was asked: a daemon
    /// that answered with success is adopted, and with any other answer
    /// nothing changes.
    pub open spec fn adopt(self, port: u16, reply: HealthReply) -> DaemonManagerView {
        if health_verdict(reply) is Ok {
            DaemonManagerView { process: self.process, info: Some(adopted_info(port)) }
        } else {
            self
        }
    }

    /// The state after a spawned process has been looked at for the first
    /// time: it is tracked, with its record, unless it has exited already.
    pub open spec fn track(self, info: DaemonInfoView, probe: ExitProbe) -> DaemonManagerView {
        match probe {
            ExitProbe::Exited(_) => self,
            _ => DaemonManagerView { process: Some(info.pid), info: Some(info) },
        }
    }

    /// What the watcher does after a look, and the state after it: a process
    /// that has exited is no longer tracked. The record stays as it is.
    pub open spec fn observe(self, probe: Option<ExitProbe>) -> (WatchStep, DaemonManagerView) {
        if self.process is None {
            (WatchStep::Stop, self)
        } else {
            match probe {
                Some(ExitProbe::Running) => (WatchStep::Continue, self),
                Some(ExitProbe::Exited(_)) => (
                    WatchStep::Stop,
                    DaemonManagerView { process: None, info: self.info },
                ),
                _ => (WatchStep::Stop, self),
            }
        }
    }

    /// The state once a stop has begun: no process is tracked any more.
    pub open spec fn release(self) -> DaemonManagerView {
        DaemonManagerView { process: None, info: self.info }
    }

    /// The state once a stop has ended: the record, if there is one, says
    /// that the daemon does not run.
    pub open spec fn stopped(self) -> DaemonManagerView {
        DaemonManagerView {
            process: self.process,
            info: match self.info {
                Some(info) => Some(DaemonInfoView { is_running: false, ..info }),
                None => None,
            },
        }
    }

    /// What follows an event of a stop, and the state after it. A process
    /// that still runs is looked at again after a pause, and is to be killed
    /// once it has stayed longer than the timeout allows. The stop ends well
    /// when the process is seen to have exited, and when it was killed; it
    /// ends in an error when the signal could not be sent, when a look
    /// failed, and when the kill failed. Whichever way it ends, the record
    /// then says that the daemon does not run.
    pub open spec fn stop_step(self, event: StopEvent) -> (StopStep, DaemonManagerView) {
        match event {
            StopEvent::Signalled => (StopStep::Look, self),
            StopEvent::SignalFailed(why) => (
                StopStep::Fail(DaemonError::Signal(why)),
                self.stopped(),
            ),
            StopEvent::Looked { probe: ExitProbe::Exited(_), .. } => (
                StopStep::Finished,
                self.stopped(),
            ),
            StopEvent::Looked { probe: ExitProbe::Running, elapsed_ms } => if elapsed_ms
                > SHUTDOWN_TIMEOUT_MS {
                (StopStep::Kill, self)
            } else {
                (StopStep::Pause(SHUTDOWN_INTERVAL_MS), self)
            },
            StopEvent::Looked { probe: ExitProbe::Failed(why), .. } => (
                StopStep::Fail(DaemonError::Status(why)),
                self.stopped(),
            ),
            StopEvent::Killed => (StopStep::Finished, self.stopped()),
            StopEvent::KillFailed(why) => (StopStep::Fail(DaemonError::Kill(why)), self.stopped()),
        }
    }

    /// Whether the daemon runs: a process is tracked, and a fresh look at it
    /// shows it running.
    pub open spec fn is_running(self, probe: Option<ExitProbe>) -> bool {
        self.process is Some && probe == Some(ExitProbe::Running)
    }
}

/// The supervisor of one daemon process. It tracks at most one process at a
/// time, and keeps the record of the last daemon it started or adopted.
pub struct DaemonManager {
    process: Option<u32>,
    info: Option<DaemonInfo>,
}

impl View for DaemonManager {
    type V = DaemonManagerView;

    closed spec fn view(&self) -> DaemonManagerView {
        DaemonManagerView { process: self.process, info: self.info.deep_view() }
    }
}

impl DaemonManager {
    /// A supervisor that tracks nothing and has no record.
    pub fn new() -> (manager: Self)
        ensures
            manager@ == (DaemonManagerView { process: None, info: None }),
    {
        DaemonManager { process: None, info: None }
    }

    /// Decides a request to start the daemon, where `probe` is what a fresh
    /// look at the process that is tracked shows, and none where there is no
    /// process to look at. While that process runs, its record is handed out
    /// again and nothing else happens. Else, where launching is switched
    /// off, the daemon that somebody else manages is recorded, which needs a
    /// configured port. Else a configured port is to be probed, and without
    /// one a daemon is to be launched.
    pub fn start_daemon(
        &mut self,
        about: &Surroundings,
        is_dev: bool,
        branch_override: Option<String>,
        probe: Option<ExitProbe>,
    ) -> (decision: StartDecision)
        ensures
            decision@ == old(self)@.start(*about, is_dev, branch_override.deep_view(), probe).0,
            final(self)@ == old(self)@.start(*about, is_dev, branch_override.deep_view(), probe).1,
    {
        if self.process.is_some() {
            match probe {
                Some(ExitProbe::Running) => {
                    if let Some(info) = &self.info {
                        return StartDecision::Cached(info.clone());
                    }
                },
                Some(ExitProbe::Exited(_)) => {
                    self.process = None;
                },
                _ => {},
            }
        }
        let disabled = match &about.autolaunch {
            Some(value) => trimmed_lowercase_is(value.as_str(), "false"),
            None => false,
        };
        let port = match &about.http_port {
            Some(value) => str_to_u16(value.as_str()),
            None => None,
        };
        if disabled {
            match port {
                Some(port) => {
                    let database_path = match &about.database_path {
                        Some(path) => path.clone(),
                        None => "~/.humanlayer/daemon.db".to_string(),
                    };
                    let socket_path = match &about.socket {
                        Some(path) => path.clone(),
                        None => {
                            let mut path = "~/.humanlayer/daemon-".to_string();
                            push_decimal(&mut path, port as u64);
                            path.append(".sock");
                            path
                        },
                    };
                    let branch = match &about.version_override {
                        Some(version) => version.clone(),
                        None => get_branch_id(is_dev, branch_override, about.git_branch.clone()),
                    };
                    let info = DaemonInfo {
                        port,
                        pid: 0,
                        database_path,
                        socket_path,
                        branch_id: branch,
                        is_running: true,
                    };
                    self.info = Some(info.clone());
                    StartDecision::External(info)
                },
                None => StartDecision::Refused(DaemonError::ExternalPortMissing),
            }
        } else {
            match port {
                Some(port) => StartDecision::Probe(port),
                None => StartDecision::Launch,
            }
        }
    }

    /// Takes the answer of the health endpoint on the configured port. A
    /// daemon that answered with success is recorded as the one in use, of
    /// which nothing is known but its port, and its record is the answer.
    /// With any other answer nothing changes, and a daemon is to be launched.
    pub fn adopt_existing(&mut self, port: u16, reply: HealthReply) -> (info: Option<DaemonInfo>)
        ensures
            final(self)@ == old(self)@.adopt(port, reply),
            info.deep_view() == (if health_verdict(reply) is Ok {
                Some(adopted_info(port))
            } else {
                None
            }),
    {
        match check_daemon_health(reply) {
            Ok(_) => {
                let info = DaemonInfo {
                    port,
                    pid: 0,
                    database_path: "external".to_string(),
                    socket_path: "external".to_string(),
                    branch_id: "external".to_string(),
                    is_running: true,
                };
                self.info = Some(info.clone());
                Some(info)
            },
            Err(_) => None,
        }
    }

    /// Takes note of a spawned process by its record, after the first look
    /// at it, as a step of its launch. One that has exited already is an
    /// error, and nothing changes. Any other is now the process that is
    /// tracked; a look that failed does not stand in the way.
    pub(crate) fn track(&mut self, info: DaemonInfo, probe: ExitProbe) -> (taken: Result<
        (),
        DaemonError,
    >)
        ensures
            final(self)@ == old(self)@.track(info@, probe),
            match probe {
                ExitProbe::Exited(status) => taken == Err::<(), DaemonError>(
                    DaemonError::ExitedEarly(status),
                ),
                _ => taken is Ok,
            },
    {
        match probe {
            ExitProbe::Exited(status) => Err(DaemonError::ExitedEarly(status)),
            _ => {
                self.process = Some(info.pid);
                self.info = Some(info);
                Ok(())
            },
        }
    }

    /// One look of the watcher at the daemon. It goes on while the process
    /// runs, and stops when nothing is tracked, when the look failed, and
    /// when the process has exited, which also ends the tracking. A daemon
    /// that has exited is not started again.
    pub fn observe(&mut self, probe: Option<ExitProbe>) -> (step: WatchStep)
        ensures
            step == old(self)@.observe(probe).0,
            final(self)@ == old(self)@.observe(probe).1,
    {
        if self.process.is_none() {
            return WatchStep::Stop;
        }
        match probe {
            Some(ExitProbe::Running) => WatchStep::Continue,
            Some(ExitProbe::Exited(_)) => {
                self.process = None;
                WatchStep::Stop
            },
            _ => WatchStep::Stop,
        }
    }

    /// Begins a stop: whatever happens next, no process is tracked from here
    /// on. The answer is the stop that has begun, with the process to
    /// terminate, if one was tracked; without one there is nothing to stop.
    pub fn stop_daemon(&mut self) -> (begun: Option<Shutdown>)
        ensures
            final(self)@ == old(self)@.release(),
            begun.deep_view() == old(self)@.process,
    {
        match self.process.take() {
            Some(pid) => Some(Shutdown { pid }),
            None => None,
        }
    }

    /// Takes one event of the stop `shutdown`, and says what to do next. The
    /// step that ends the stop, well or in an error, also marks the record
    /// as not running.
    pub fn stop_step(&mut self, shutdown: &Shutdown, event: StopEvent) -> (step: StopStep)
        ensures
            step == old(self)@.stop_step(event).0,
            final(self)@ == old(self)@.stop_step(event).1,
    {
        match event {
            StopEvent::Signalled => StopStep::Look,
            StopEvent::SignalFailed(why) => {
                self.mark_stopped();
                StopStep::Fail(DaemonError::Signal(why))
            },
            StopEvent::Looked { probe, elapsed_ms } => match probe {
                ExitProbe::Exited(_) => {
                    self.mark_stopped();
                    StopStep::Finished
                },
                ExitProbe::Running => if elapsed_ms > SHUTDOWN_TIMEOUT_MS {
                    StopStep::Kill
                } else {
                    StopStep::Pause(SHUTDOWN_INTERVAL_MS)
                },
                ExitProbe::Failed(why) => {
                    self.mark_stopped();
                    StopStep::Fail(DaemonError::Status(why))
                },
            },
            StopEvent::Killed => {
                self.mark_stopped();
                StopStep::Finished
            },
            StopEvent::KillFailed(why) => {
                self.mark_stopped();
                StopStep::Fail(DaemonError::Kill(why))
            },
        }
    }

    fn mark_stopped(&mut self)
        ensures
            final(self)@ == old(self)@.stopped(),
    {
        match self.info.take() {
            Some(info) => {
                self.info = Some(
                    DaemonInfo {
                        port: info.port,
                        pid: info.pid,
                        database_path: info.database_path,
                        socket_path: info.socket_path,
                        branch_id: info.branch_id,
                        is_running: false,
                    },
                );
            },
            None => {},
        }
    }

    /// The last record that was made, if any.
    pub fn get_info(&self) -> (info: Option<DaemonInfo>)
        ensures
            info.deep_view() == self@.info,
    {
        match &self.info {
            Some(info) => Some(info.clone()),
            None => None,
        }
    }

    /// The id of the process that is tracked, if any.
    pub fn tracked_pid(&self) -> (pid: Option<u32>)
        ensures
            pid == self@.process,
    {
        self.process
    }

    /// Whether the daemon runs, by a fresh look at the process rather than by
    /// the record: a process is tracked, and the look shows it running.
    /// `probe` is none where there is no process to look at.
    pub fn is_running(&self, probe: Option<ExitProbe>) -> (running: bool)
        ensures
            running == self@.is_running(probe),
    {
        self.process.is_some() && match probe {
            Some(ExitProbe::Running) => true,
            _ => false,
        }
    }
}

/// While the process that is tracked runs, every request to start gets the
/// same record, and neither the state nor the answer changes however often
/// it is asked, or with what: nothing is launched a second time.
pub proof fn lemma_start_is_cached_while_alive(
    state: DaemonManagerView,
    about: Surroundings,
    is_dev: bool,
    branch_override: Option<Seq<char>>,
    about_again: Surroundings,
    is_dev_again: bool,
    branch_override_again: Option<Seq<char>>,
)
    requires
        state.process is Some,
        state.info is Some,
    ensures
        state.start(about, is_dev, branch_override, Some(ExitProbe::Running)) == (
            StartDecisionView::Cached(state.info->0),
            state,
        ),
        state.start(about, is_dev, branch_override, Some(ExitProbe::Running)).1.start(
            about_again,
            is_dev_again,
            branch_override_again,
            Some(ExitProbe::Running),
        ) == state.start(about, is_dev, branch_override, Some(ExitProbe::Running)),
{
}

/// Once a launched daemon is tracked, a request to start it is answered from
/// the record that was made of it, for as long as it runs.
pub proof fn lemma_start_after_track_is_cached(
    state: DaemonManagerView,
    info: DaemonInfoView,
    probe: ExitProbe,
    about: Surroundings,
    is_dev: bool,
    branch_override: Option<Seq<char>>,
)
    requires
        !(probe is Exited),
    ensures
        state.track(info, probe).start(
            about,
            is_dev,
            branch_override,
            Some(ExitProbe::Running),
        ) == (StartDecisionView::Cached(info), state.track(info, probe)),
{
}

/// A request to start is answered from the record only while the process
/// runs: without a process, and with one that a fresh look does not show
/// running, the answer is never the record, and a process that has exited
/// is no longer tracked afterwards.
pub proof fn lemma_start_is_not_cached_without_a_live_process(
    state: DaemonManagerView,
    about: Surroundings,
    is_dev: bool,
    branch_override: Option<Seq<char>>,
    probe: Option<ExitProbe>,
)
    requires
        !state.is_running(probe),
    ensures
        !(state.start(about, is_dev, branch_override, probe).0 is Cached),
        probe is Some && probe->0 is Exited ==> state.start(
            about,
            is_dev,
            branch_override,
            probe,
        ).1.process is None,
{
}

/// After a stop has begun the daemon never counts as running, whatever a
/// look at a process shows, whatever happens during the stop, and whether
/// the daemon left when it was asked or had to be killed.
pub proof fn lemma_not_running_after_stop(
    state: DaemonManagerView,
    event: StopEvent,
    probe: Option<ExitProbe>,
)
    ensures
        !state.release().is_running(probe),
        !state.release().stop_step(event).1.is_running(probe),
{
}

/// A stop ends well exactly when the process is seen to have exited or was
/// killed, and in an error exactly when the signal, a look or the kill
/// failed. Whichever way it ends, the record then says that the daemon does
/// not run; a step that does not end the stop leaves the record as it was.
pub proof fn lemma_ended_stop_is_recorded(state: DaemonManagerView, event: StopEvent)
    ensures
        state.stop_step(event).0 is Finished <==> (event matches StopEvent::Looked {
            probe: ExitProbe::Exited(_),
            ..
        }) || event is Killed,
        state.stop_step(event).0 is Fail <==> event is SignalFailed || event is KillFailed || (
        event matches StopEvent::Looked { probe: ExitProbe::Failed(_), .. }),
        state.stop_step(event).0 is Finished || state.stop_step(event).0 is Fail ==> {
            &&& state.stop_step(event).1 == state.stopped()
            &&& state.stop_step(event).1.info matches Some(info) ==> !info.is_running
        },
        !(state.stop_step(event).0 is Finished || state.stop_step(event).0 is Fail)
            ==> state.stop_step(event).1 == state,
{
}

/// After a stop of a process that was tracked has ended, well or in an
/// error, the daemon does not count as running and its record says so: no
/// process is tracked, and what was known of the daemon is kept but for
/// that.
pub proof fn lemma_stop_clears_and_marks(
    state: DaemonManagerView,
    event: StopEvent,
    probe: Option<ExitProbe>,
)
    requires
        state.stop_step(event).0 is Finished || state.stop_step(event).0 is Fail,
    ensures
        state.release().stop_step(event).1.process is None,
        !state.release().stop_step(event).1.is_running(probe),
        state.info is Some ==> state.release().stop_step(event).1.info == Some(
            DaemonInfoView { is_running: false, ..state.info->0 },
        ),
{
}

/// A daemon that has exited is no longer tracked after the watcher's look,
/// and the watcher stops.
pub proof fn lemma_exit_ends_tracking(state: DaemonManagerView, status: String)
    ensures
        state.observe(Some(ExitProbe::Exited(status))).0 == WatchStep::Stop,
        state.observe(Some(ExitProbe::Exited(status))).1.process is None,
{
}

} // verus!
