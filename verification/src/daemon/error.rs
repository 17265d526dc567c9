//! Why the daemon could not be started or stopped.

use crate::text::{concat2, concat3};
use vstd::prelude::*;

verus! {

/// Why the daemon could not be started or stopped. None of these is retried
/// here.
#[derive(Debug, Clone)]
pub enum DaemonError {
    /// Launching is switched off and no usable port is configured.
    ExternalPortMissing,
    /// The home directory is not known.
    NoHomeDirectory,
    /// The data directory could not be made.
    CreateDirectory(String),
    /// The development database could not be copied.
    CopyDatabase(String),
    /// The working directory is not known.
    CurrentDirectory(String),
    /// The working directory has no parent to look under.
    NoParentDirectory,
    /// No development daemon stands where it was looked for. The path is
    /// held as it is shown: quoted.
    DevDaemonMissing(String),
    /// No packaged daemon stands where it was looked for. The path is held
    /// as it is shown: quoted.
    DaemonMissing(String),
    /// The directory of packaged resources is not known.
    ResourceDirectory(String),
    /// The process could not be spawned.
    Spawn(String),
    /// The spawned process has no standard output to read.
    NoStdout,
    /// The daemon closed its output before it wrote a line.
    StdoutClosed,
    /// The daemon's output could not be read.
    StdoutUnreadable(String),
    /// The daemon's first line does not announce a port. The line is held as
    /// it is shown: quoted, with its line end escaped.
    PortNotReported(String),
    /// The daemon had exited by the time its port was read.
    ExitedEarly(String),
    /// The health endpoint did not answer in time.
    NotReady,
    /// The health endpoint answered, but not with success.
    Unhealthy,
    /// The health endpoint could not be reached.
    Unreachable(String),
    /// The request to terminate could not be sent.
    Signal(String),
    /// The daemon could not be killed.
    Kill(String),
    /// The daemon's exit status could not be asked for.
    Status(String),
}

impl DaemonError {
    /// The error in words.
    pub open spec fn text(self) -> Seq<char> {
        match self {
            DaemonError::ExternalPortMissing =>
                "HUMANLAYER_WUI_AUTOLAUNCH_DAEMON=false but no HUMANLAYER_DAEMON_HTTP_PORT set"@,
            DaemonError::NoHomeDirectory => "Failed to get home directory"@,
            DaemonError::CreateDirectory(why) => "Failed to create .humanlayer directory: "@
                + why@,
            DaemonError::CopyDatabase(why) => "Failed to copy dev database: "@ + why@,
            DaemonError::CurrentDirectory(why) => "Failed to get current directory: "@ + why@,
            DaemonError::NoParentDirectory => "Failed to get parent directory"@,
            DaemonError::DevDaemonMissing(shown) => "Development daemon not found at "@
                + shown@ + ". Run 'make daemon-dev-build' first."@,
            DaemonError::DaemonMissing(shown) => "Daemon not found at "@ + shown@,
            DaemonError::ResourceDirectory(why) => "Failed to get resource directory: "@ + why@,
            DaemonError::Spawn(why) => "Failed to start daemon: "@ + why@,
            DaemonError::NoStdout => "Failed to capture daemon stdout"@,
            DaemonError::StdoutClosed => "Daemon stdout closed before reporting port"@,
            DaemonError::StdoutUnreadable(why) => "Failed to read daemon stdout: "@ + why@,
            DaemonError::PortNotReported(shown) =>
                "Daemon failed to report port. First line was: "@ + shown@,
            DaemonError::ExitedEarly(status) =>
                "Daemon process exited immediately after starting! Status: "@ + status@,
            DaemonError::NotReady => "Daemon failed to start within 10 seconds"@,
            DaemonError::Unhealthy => "Daemon health check failed"@,
            DaemonError::Unreachable(why) => "Failed to connect to daemon: "@ + why@,
            DaemonError::Signal(why) => "Failed to send SIGTERM to daemon: "@ + why@,
            DaemonError::Kill(why) => "Failed to kill daemon: "@ + why@,
            DaemonError::Status(why) => "Failed to check daemon status: "@ + why@,
        }
    }

    /// The error in words, as the caller is shown it.
    pub fn message(&self) -> (out: String)
        ensures
            out@ == self.text(),
    {
        match self {
            DaemonError::ExternalPortMissing =>
                "HUMANLAYER_WUI_AUTOLAUNCH_DAEMON=false but no HUMANLAYER_DAEMON_HTTP_PORT set".to_string(),
            DaemonError::NoHomeDirectory => "Failed to get home directory".to_string(),
            DaemonError::CreateDirectory(why) => concat2(
                "Failed to create .humanlayer directory: ",
                why.as_str(),
            ),
            DaemonError::CopyDatabase(why) => concat2(
                "Failed to copy dev database: ",
                why.as_str(),
            ),
            DaemonError::CurrentDirectory(why) => concat2(
                "Failed to get current directory: ",
                why.as_str(),
            ),
            DaemonError::NoParentDirectory => "Failed to get parent directory".to_string(),
            DaemonError::DevDaemonMissing(shown) => concat3(
                "Development daemon not found at ",
                shown.as_str(),
                ". Run 'make daemon-dev-build' first.",
            ),
            DaemonError::DaemonMissing(shown) => concat2("Daemon not found at ", shown.as_str()),
            DaemonError::ResourceDirectory(why) => concat2(
                "Failed to get resource directory: ",
                why.as_str(),
            ),
            DaemonError::Spawn(why) => concat2("Failed to start daemon: ", why.as_str()),
            DaemonError::NoStdout => "Failed to capture daemon stdout".to_string(),
            DaemonError::StdoutClosed => "Daemon stdout closed before reporting port".to_string(),
            DaemonError::StdoutUnreadable(why) => concat2(
                "Failed to read daemon stdout: ",
                why.as_str(),
            ),
            DaemonError::PortNotReported(shown) => concat2(
                "Daemon failed to report port. First line was: ",
                shown.as_str(),
            ),
            DaemonError::ExitedEarly(status) => concat2(
                "Daemon process exited immediately after starting! Status: ",
                status.as_str(),
            ),
            DaemonError::NotReady => "Daemon failed to start within 10 seconds".to_string(),
            DaemonError::Unhealthy => "Daemon health check failed".to_string(),
            DaemonError::Unreachable(why) => concat2("Failed to connect to daemon: ", why.as_str()),
            DaemonError::Signal(why) => concat2(
                "Failed to send SIGTERM to daemon: ",
                why.as_str(),
            ),
            DaemonError::Kill(why) => concat2("Failed to kill daemon: ", why.as_str()),
            DaemonError::Status(why) => concat2("Failed to check daemon status: ", why.as_str()),
        }
    }
}

} // verus!
