//! What the supervisor reports to its callers.

use vstd::prelude::*;
use vstd::string::StringExecFns;

verus! {

/// The condition of the backend as one report describes it.
#[derive(Clone, Copy, Debug, PartialEq, Eq, Structural)]
pub enum BackendStatus {
    /// A start found the backend already up and answering.
    Running,
    /// A start brought the backend up and saw it answer for the first time.
    Ready,
    /// A status check found the backend answering.
    Healthy,
    /// A status check found a recorded backend that does not answer.
    Unhealthy,
    /// No backend is recorded.
    Stopped,
}

impl BackendStatus {
    /// The lower-case name under which the status is reported.
    pub open spec fn name(self) -> Seq<char> {
        match self {
            BackendStatus::Running => "running"@,
            BackendStatus::Ready => "ready"@,
            BackendStatus::Healthy => "healthy"@,
            BackendStatus::Unhealthy => "unhealthy"@,
            BackendStatus::Stopped => "stopped"@,
        }
    }

    /// The lower-case name under which the status is reported.
    pub fn as_str(self) -> (name: &'static str)
        ensures
            name@ == self.name(),
    {
        match self {
            BackendStatus::Running => "running",
            BackendStatus::Ready => "ready",
            BackendStatus::Healthy => "healthy",
            BackendStatus::Unhealthy => "unhealthy",
            BackendStatus::Stopped => "stopped",
        }
    }
}

/// A snapshot of the backend for a caller: never changed once made.
#[derive(Clone, Copy, Debug, PartialEq, Eq, Structural)]
pub struct BackendInfo {
    /// The reported condition.
    pub status: BackendStatus,
    /// The port the backend listens on, where one is recorded.
    pub port: Option<u16>,
}

impl BackendInfo {
    /// The sentence that goes with a report. It depends on the status
    /// alone; the port is a field of its own.
    pub open spec fn message_text(self) -> Seq<char> {
        match self.status {
            BackendStatus::Running => "Python backend is already running"@,
            BackendStatus::Ready => "Python backend started successfully"@,
            BackendStatus::Healthy => "Python backend is healthy"@,
            BackendStatus::Unhealthy => "Python backend is not responding"@,
            BackendStatus::Stopped => "Python backend is not running"@,
        }
    }

    /// The report of a backend that a start found already answering on `port`.
    pub fn running(port: u16) -> (info: BackendInfo)
        ensures
            info == (BackendInfo { status: BackendStatus::Running, port: Some(port) }),
    {
        BackendInfo { status: BackendStatus::Running, port: Some(port) }
    }

    /// The report of a backend that has just become ready on `port`.
    pub fn ready(port: u16) -> (info: BackendInfo)
        ensures
            info == (BackendInfo { status: BackendStatus::Ready, port: Some(port) }),
    {
        BackendInfo { status: BackendStatus::Ready, port: Some(port) }
    }

    /// The report of a status check on a recorded backend.
    pub fn checked(port: u16, healthy: bool) -> (info: BackendInfo)
        ensures
            info.port == Some(port),
            info.status == if healthy {
                BackendStatus::Healthy
            } else {
                BackendStatus::Unhealthy
            },
    {
        let status = if healthy {
            BackendStatus::Healthy
        } else {
            BackendStatus::Unhealthy
        };
        BackendInfo { status, port: Some(port) }
    }

    /// The report that no backend is recorded.
    pub fn stopped() -> (info: BackendInfo)
        ensures
            info == (BackendInfo { status: BackendStatus::Stopped, port: None }),
    {
        BackendInfo { status: BackendStatus::Stopped, port: None }
    }

    /// The human-readable sentence that goes with the report.
    pub fn message(&self) -> (message: String)
        ensures
            message@ == self.message_text(),
    {
        match self.status {
            BackendStatus::Running => String::from_str("Python backend is already running"),
            BackendStatus::Ready => String::from_str("Python backend started successfully"),
            BackendStatus::Healthy => String::from_str("Python backend is healthy"),
            BackendStatus::Unhealthy => String::from_str("Python backend is not responding"),
            BackendStatus::Stopped => String::from_str("Python backend is not running"),
        }
    }
}

} // verus!
