//! The supervisor's record of the backend and the read-only operations
//! on it.
//!
//! One supervisor is made at application start and handed to every
//! command handler. The caller keeps it behind a lock; each function
//! here is one short critical section, and none of them waits for
//! anything.

use vstd::prelude::*;
use crate::config::SupervisorConfig;
use crate::info::BackendInfo;
use crate::paths::{LaunchContext, LaunchContextView};

verus! {

/// What is recorded about the child at one moment.
#[derive(Clone, Copy, Debug, PartialEq, Eq, Structural)]
pub struct SupervisorState {
    /// The process id of the recorded child, if one is recorded.
    pub process: Option<u32>,
    /// The port the recorded child was told to listen on.
    pub port: Option<u16>,
    /// Whether a start attempt is under way.
    pub starting: bool,
}

impl SupervisorState {
    /// The record of a supervisor that has not started anything.
    pub open spec fn empty() -> SupervisorState {
        SupervisorState { process: None, port: None, starting: false }
    }

    /// A child and its port are recorded together or not at all, so that
    /// no observer sees a child without a port or a port without a child.
    pub open spec fn consistent(self) -> bool {
        self.process is Some <==> self.port is Some
    }

    /// No child is recorded.
    pub open spec fn stopped(self) -> bool {
        self.process is None && self.port is None
    }

    /// Whether the child `pid` is recorded, on `port`.
    pub open spec fn records(self, pid: u32, port: u16) -> bool {
        self.process == Some(pid) && self.port == Some(port)
    }

    /// The record with the start slot taken.
    pub open spec fn claimed(self) -> SupervisorState {
        SupervisorState { starting: true, ..self }
    }

    /// The record with the start slot free.
    pub open spec fn released(self) -> SupervisorState {
        SupervisorState { starting: false, ..self }
    }

    /// The record once the child `pid` has been launched on `port`.
    pub open spec fn recording(self, pid: u32, port: u16) -> SupervisorState {
        SupervisorState { process: Some(pid), port: Some(port), ..self }
    }

    /// The record with child and port cleared.
    pub open spec fn cleared(self) -> SupervisorState {
        SupervisorState { process: None, port: None, ..self }
    }
}

/// The supervisor of one backend process.
#[derive(Debug)]
pub struct Supervisor {
    config: SupervisorConfig,
    context: LaunchContext,
    state: SupervisorState,
}

/// The mathematical content of a [`Supervisor`].
pub struct SupervisorView {
    pub config: SupervisorConfig,
    pub context: LaunchContextView,
    pub state: SupervisorState,
}

/// What a status check has to do next.
#[derive(Clone, Copy, Debug, PartialEq, Eq, Structural)]
pub enum StatusStep {
    /// Nothing is recorded; this is the report.
    Report(BackendInfo),
    /// Probe the health endpoint on `port`, then conclude with the result.
    Probe {
        port: u16,
    },
}

impl View for Supervisor {
    type V = SupervisorView;

    closed spec fn view(&self) -> SupervisorView {
        SupervisorView { config: self.config, context: self.context@, state: self.state }
    }
}

/// What a status check does first, given the record: it reports
/// `stopped` where no port is recorded, and probes the recorded port
/// otherwise.
pub open spec fn status_entry(state: SupervisorState) -> StatusStep {
    match state.port {
        None => StatusStep::Report(
            BackendInfo { status: crate::info::BackendStatus::Stopped, port: None },
        ),
        Some(port) => StatusStep::Probe { port },
    }
}

/// The report of a status check that probed `port`.
pub open spec fn status_report(port: u16, healthy: bool) -> BackendInfo {
    BackendInfo {
        status: if healthy {
            crate::info::BackendStatus::Healthy
        } else {
            crate::info::BackendStatus::Unhealthy
        },
        port: Some(port),
    }
}

impl Supervisor {
    /// Whether the record is consistent. Every supervisor is, at all
    /// times.
    #[verifier::type_invariant]
    pub open spec fn wf(&self) -> bool {
        self@.state.consistent()
    }

    /// A supervisor that has not started anything.
    pub fn new(config: SupervisorConfig, context: LaunchContext) -> (supervisor: Supervisor)
        ensures
            supervisor@.config == config,
            supervisor@.context == context@,
            supervisor@.state == SupervisorState::empty(),
    {
        Supervisor {
            config,
            context,
            state: SupervisorState { process: None, port: None, starting: false },
        }
    }

    /// The settings the supervisor was made with.
    pub fn config(&self) -> (config: SupervisorConfig)
        ensures
            config == self@.config,
    {
        self.config
    }

    /// The surroundings the supervisor was made with.
    pub fn context(&self) -> (context: &LaunchContext)
        ensures
            context@ == self@.context,
    {
        &self.context
    }

    /// What is recorded at this moment.
    pub fn snapshot(&self) -> (state: SupervisorState)
        ensures
            state == self@.state,
    {
        self.state
    }

    /// The port of the recorded child, if one is recorded. A plain read.
    pub fn port(&self) -> (port: Option<u16>)
        ensures
            port == self@.state.port,
    {
        self.state.port
    }

    /// The process id of the recorded child, if one is recorded.
    pub fn process(&self) -> (process: Option<u32>)
        ensures
            process == self@.state.process,
    {
        self.state.process
    }

    /// Replaces the record.
    pub(crate) fn store(&mut self, state: SupervisorState)
        requires
            state.consistent(),
        ensures
            final(self)@ == (SupervisorView { state, ..old(self)@ }),
    {
        self.state = state;
    }

    /// Begins a status check: the report itself where nothing is
    /// recorded, the port to probe otherwise. The record stays as it is.
    pub fn begin_status(&self) -> (step: StatusStep)
        ensures
            step == status_entry(self@.state),
    {
        match self.state.port {
            None => StatusStep::Report(BackendInfo::stopped()),
            Some(port) => StatusStep::Probe { port },
        }
    }

    /// Concludes a status check with the result of the probe on `port`.
    /// An unhealthy backend is a report, never a failure.
    pub fn conclude_status(port: u16, healthy: bool) -> (info: BackendInfo)
        ensures
            info == status_report(port, healthy),
    {
        BackendInfo::checked(port, healthy)
    }
}

} // verus!
