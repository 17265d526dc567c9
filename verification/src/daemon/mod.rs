//! The supervisor of the daemon process: what it decides while the process
//! is started, watched and stopped. The caller spawns, reads, polls and
//! signals; every decision in between is taken here.
//!
//! A start goes through these steps, and ends at the first error:
//!
//! 1. `DaemonManager::start_daemon` decides whether anything is to be done.
//!    A process that is tracked and that a fresh look shows running is
//!    answered from its record. With launching switched off the configured
//!    daemon is recorded. A configured port is probed first (`health_url`),
//!    and `DaemonManager::adopt_existing` adopts a daemon that answers with
//!    success.
//! 2. For a launch, `resolve_paths` says where the daemon keeps its data,
//!    the caller makes the data directory and seeds the database where
//!    `DaemonPaths::needs_seeding` says so, `locate_daemon` and
//!    `get_daemon_path` give the executable, which has to be there, and
//!    `launch_environment` what it is told.
//! 3. The caller spawns the process, and from then on reports everything
//!    that happens to `Launch::step`, which says what to do next: read the
//!    first line of the output, which has to announce the port; look at the
//!    process, which is tracked from then on unless it has exited already;
//!    and ask the health endpoint, with pauses, until it answers with success
//!    or the timeout has passed. Giving up changes nothing: the process stays
//!    tracked, and keeps running. What the process writes to its standard
//!    error is logged as `crate::logs::classify_stderr_line` says.
//! 4. Once the daemon is ready, `DaemonManager::observe` is told what a look
//!    at the process shows, once per `LIVENESS_INTERVAL_MS`.
//!
//! A stop begins with `DaemonManager::stop_daemon`, which hands out the
//! process to terminate. From the request to terminate on, everything that
//! happens is reported to `DaemonManager::stop_step`, which paces the wait
//! for the process to leave, has it killed when it stays too long, and
//! marks the record as not running when the stop ends, well or in an error.
//!
//! Time is handed in as milliseconds, counted by `clock::elapsed_millis` for
//! the wait for readiness and by `clock::elapsed_millis_begun` for a stop.

pub mod announcement;
pub mod clock;
pub mod error;
pub mod executable;
pub mod health;
pub mod launch;
pub mod manager;
pub mod paths;

pub use crate::daemon::announcement::{
    parse_port_line, read_announced_port, FirstLine, PORT_PREFIX,
};
pub use crate::daemon::clock::{elapsed_millis, elapsed_millis_begun};
pub use crate::daemon::error::DaemonError;
pub use crate::daemon::executable::{
    dev_daemon_location, dev_daemon_under, get_daemon_path, locate_daemon, packaged_daemon_under,
};
pub use crate::daemon::health::{
    check_daemon_health, health_url, wait_for_daemon, HealthReply, ReadinessEvent, ReadinessStep,
    READINESS_INTERVAL_MS, READINESS_TIMEOUT_MS,
};
pub use crate::daemon::launch::{Launch, LaunchEvent, LaunchPhase, LaunchStep};
pub use crate::daemon::manager::{
    DaemonInfo, DaemonManager, ExitProbe, Shutdown, StartDecision, StopEvent, StopStep,
    Surroundings, WatchStep, AUTOLAUNCH_VAR, LIVENESS_INTERVAL_MS, SHUTDOWN_INTERVAL_MS,
    SHUTDOWN_TIMEOUT_MS,
};
pub use crate::daemon::paths::{
    is_nightly, launch_environment, resolve_paths, DaemonPaths, DATABASE_VAR, HTTP_HOST_VAR,
    HTTP_PORT_VAR, SOCKET_VAR, VERSION_VAR,
};
