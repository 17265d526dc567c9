//! The daemon's health endpoint, and the wait for it to answer.

use crate::daemon::error::DaemonError;
use crate::text::{decimal_text, push_decimal};
use vstd::prelude::*;

verus! {

/// How long the daemon has to answer its health endpoint, in milliseconds.
pub const READINESS_TIMEOUT_MS: u64 = 10000;

/// The pause between two questions to the health endpoint, in milliseconds.
pub const READINESS_INTERVAL_MS: u64 = 500;

/// The address of the health endpoint of a daemon that listens on `port`.
pub open spec fn health_address(port: u16) -> Seq<char> {
    "http://localhost:"@ + decimal_text(port as nat) + "/api/v1/health"@
}

/// The address of the health endpoint of a daemon that listens on `port`.
pub fn health_url(port: u16) -> (url: String)
    ensures
        url@ == health_address(port),
{
    let mut url = "http://localhost:".to_string();
    push_decimal(&mut url, port as u64);
    url.append("/api/v1/health");
    url
}

/// What came of one question to the health endpoint.
#[derive(Debug, Clone)]
pub enum HealthReply {
    /// An answer came, with this HTTP status.
    Status(u16),
    /// No answer came, for the reason given.
    Unreachable(String),
}

/// Whether an HTTP status reports success: the codes from 200 to 299.
pub open spec fn is_success_status(code: u16) -> bool {
    200 <= code < 300
}

/// What `check_daemon_health` makes of a reply.
pub open spec fn health_verdict(reply: HealthReply) -> Result<(), DaemonError> {
    match reply {
        HealthReply::Status(code) => if is_success_status(code) {
            Ok(())
        } else {
            Err(DaemonError::Unhealthy)
        },
        HealthReply::Unreachable(why) => Err(DaemonError::Unreachable(why)),
    }
}

/// Whether the daemon is healthy: it is when the endpoint answered with
/// success, and otherwise the error says which of the two went wrong.
pub fn check_daemon_health(reply: HealthReply) -> (verdict: Result<(), DaemonError>)
    ensures
        verdict == health_verdict(reply),
{
    match reply {
        HealthReply::Status(code) => if 200 <= code && code < 300 {
            Ok(())
        } else {
            Err(DaemonError::Unhealthy)
        },
        HealthReply::Unreachable(why) => Err(DaemonError::Unreachable(why)),
    }
}

/// What the caller that waits for the daemon to become ready reports.
#[derive(Debug, Clone)]
pub enum ReadinessEvent {
    /// A round begins, this long after the wait began.
    Round { elapsed_ms: u64 },
    /// The health endpoint was asked, and this came of it.
    Answer(HealthReply),
}

/// What the caller that waits for the daemon to become ready does next.
#[derive(Debug, Clone)]
pub enum ReadinessStep {
    /// Ask the health endpoint, and report the answer.
    Ask,
    /// The daemon is ready.
    Ready,
    /// Pause for this many milliseconds, then begin a round.
    Pause(u64),
    /// Give up with this error. The process is left as it is.
    GiveUp(DaemonError),
}

/// The step that follows an event of the wait for readiness.
pub open spec fn readiness_step(event: ReadinessEvent) -> ReadinessStep {
    match event {
        ReadinessEvent::Round { elapsed_ms } => if elapsed_ms < READINESS_TIMEOUT_MS {
            ReadinessStep::Ask
        } else {
            ReadinessStep::GiveUp(DaemonError::NotReady)
        },
        ReadinessEvent::Answer(reply) => if health_verdict(reply) is Ok {
            ReadinessStep::Ready
        } else {
            ReadinessStep::Pause(READINESS_INTERVAL_MS)
        },
    }
}

/// One step of the wait for readiness: the endpoint is asked at the start of
/// every round that begins before the timeout, a round that begins later ends
/// the wait in failure, an answer that reports success ends it well, and
/// between any other answer and the next round lies a fixed pause.
pub fn wait_for_daemon(event: ReadinessEvent) -> (step: ReadinessStep)
    ensures
        step == readiness_step(event),
{
    match event {
        ReadinessEvent::Round { elapsed_ms } => if elapsed_ms < READINESS_TIMEOUT_MS {
            ReadinessStep::Ask
        } else {
            ReadinessStep::GiveUp(DaemonError::NotReady)
        },
        ReadinessEvent::Answer(reply) => match check_daemon_health(reply) {
            Ok(_) => ReadinessStep::Ready,
            Err(_) => ReadinessStep::Pause(READINESS_INTERVAL_MS),
        },
    }
}

} // verus!
