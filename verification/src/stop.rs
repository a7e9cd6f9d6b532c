//! Stopping the backend, one decision at a time.
//!
//! A stop takes the recorded child out of the record at its first
//! decision, together with the port, so that no start can meet a stale
//! handle. What follows is best effort: where the platform has a
//! graceful signal the child gets it and a grace period, and is killed
//! and reaped only if it is still there afterwards; elsewhere it is
//! killed at once. The port hint is removed whether or not a child was
//! recorded. A stop cannot fail: a step that went wrong is reported like
//! one that went well, and the stop goes on.

use vstd::prelude::*;
use vstd::string::StringExecFns;
use crate::config::Platform;
use crate::paths::hint_path_in;
use crate::supervisor::{Supervisor, SupervisorState, SupervisorView};

verus! {

/// Where a stop stands.
#[derive(Clone, Copy, Debug, PartialEq, Eq, Structural)]
pub enum StopStage {
    /// Waiting for the graceful signal to be sent.
    Signalling { pid: u32 },
    /// Waiting for the grace period to end.
    Gracing { pid: u32 },
    /// Waiting to hear whether the child has exited.
    Checking { pid: u32 },
    /// Waiting for the child to be killed and reaped.
    Killing { pid: u32 },
    /// Waiting for the port hint to be removed.
    RemovingHint { was_running: bool },
}

/// One stop in progress.
#[derive(Debug)]
pub struct StopSession {
    stage: StopStage,
    grace_period_ms: u64,
    hint_path: String,
}

/// The mathematical content of a [`StopSession`].
pub struct StopSessionView {
    pub stage: StopStage,
    pub grace_period_ms: u64,
    pub hint_path: Seq<char>,
}

/// What the caller is asked to do next. Each of these is attempted
/// once; a failure is not reported.
#[derive(Clone, Debug, PartialEq, Eq)]
pub enum StopRequest {
    /// Send the graceful termination signal to the child `pid`, then
    /// report `Signalled`.
    Terminate { pid: u32 },
    /// Sleep for `millis` milliseconds, then report `Waited`.
    Sleep { millis: u64 },
    /// Look whether the child `pid` has exited, without waiting, then
    /// report `ChildRunning`, `ChildExited` or `ChildUnknown`.
    CheckChild { pid: u32 },
    /// Kill the child `pid` and wait until it is reaped, then report
    /// `Killed`.
    Kill { pid: u32 },
    /// Delete the file `path` if it is there, then report `HintRemoved`.
    RemoveHint { path: String },
}

/// The mathematical content of a [`StopRequest`].
pub enum StopRequestView {
    Terminate { pid: u32 },
    Sleep { millis: u64 },
    CheckChild { pid: u32 },
    Kill { pid: u32 },
    RemoveHint { path: Seq<char> },
}

/// What the caller reports back.
#[derive(Clone, Copy, Debug, PartialEq, Eq, Structural)]
pub enum StopEvent {
    /// The graceful signal was attempted.
    Signalled,
    /// The requested sleep is over.
    Waited,
    /// The child has not exited.
    ChildRunning,
    /// The child has exited.
    ChildExited,
    /// The child's condition could not be read.
    ChildUnknown,
    /// The kill was attempted and the child waited for.
    Killed,
    /// The removal of the port hint was attempted.
    HintRemoved,
}

/// How a stop ended. A stop always ends well.
#[derive(Clone, Copy, Debug, PartialEq, Eq, Structural)]
pub struct StopReport {
    /// Whether a child was recorded when the stop began.
    pub was_running: bool,
}

/// The result of one decision: the next request, with the session to
/// report back to, or the end of the stop.
#[derive(Debug)]
pub enum StopStep {
    Continue(StopSession, StopRequest),
    Done(StopReport),
}

/// The mathematical content of a [`StopStep`].
pub enum StopStepView {
    Continue(StopSessionView, StopRequestView),
    Done(StopReport),
}

/// What a decision leads to: a further stage, or the end.
pub enum StopNext {
    Stage(StopStage),
    Done(StopReport),
}

impl View for StopSession {
    type V = StopSessionView;

    closed spec fn view(&self) -> StopSessionView {
        StopSessionView {
            stage: self.stage,
            grace_period_ms: self.grace_period_ms,
            hint_path: self.hint_path@,
        }
    }
}

impl View for StopRequest {
    type V = StopRequestView;

    open spec fn view(&self) -> StopRequestView {
        match self {
            StopRequest::Terminate { pid } => StopRequestView::Terminate { pid: *pid },
            StopRequest::Sleep { millis } => StopRequestView::Sleep { millis: *millis },
            StopRequest::CheckChild { pid } => StopRequestView::CheckChild { pid: *pid },
            StopRequest::Kill { pid } => StopRequestView::Kill { pid: *pid },
            StopRequest::RemoveHint { path } => StopRequestView::RemoveHint { path: path@ },
        }
    }
}

impl View for StopStep {
    type V = StopStepView;

    open spec fn view(&self) -> StopStepView {
        match self {
            StopStep::Continue(session, request) => StopStepView::Continue(session@, request@),
            StopStep::Done(report) => StopStepView::Done(*report),
        }
    }
}

/// The record that a stop leaves: no child, no port. Whether a start
/// is under way is not for a stop to say.
pub open spec fn stop_state(state: SupervisorState) -> SupervisorState {
    state.cleared()
}

/// The stage a stop begins at. With a child recorded it begins with the
/// graceful signal where the platform has one and with the kill where
/// it has none; with no child it goes straight to the port hint.
pub open spec fn stop_entry(state: SupervisorState, platform: Platform) -> StopStage {
    match state.process {
        Some(pid) => match platform {
            Platform::Posix => StopStage::Signalling { pid },
            Platform::Windows => StopStage::Killing { pid },
        },
        None => StopStage::RemovingHint { was_running: false },
    }
}

/// The content of the session that a stop begins with on a supervisor
/// with the content `supervisor`.
pub open spec fn stop_session(supervisor: SupervisorView) -> StopSessionView {
    StopSessionView {
        stage: stop_entry(supervisor.state, supervisor.context.platform),
        grace_period_ms: supervisor.config.grace_period_ms,
        hint_path: hint_path_in(supervisor.context.data_dir),
    }
}

impl StopSessionView {
    /// The session at another stage.
    pub open spec fn at(self, stage: StopStage) -> StopSessionView {
        StopSessionView { stage, ..self }
    }

    /// The request that the session waits on at its stage.
    pub open spec fn request(self) -> StopRequestView {
        match self.stage {
            StopStage::Signalling { pid } => StopRequestView::Terminate { pid },
            StopStage::Gracing { .. } => StopRequestView::Sleep { millis: self.grace_period_ms },
            StopStage::Checking { pid } => StopRequestView::CheckChild { pid },
            StopStage::Killing { pid } => StopRequestView::Kill { pid },
            StopStage::RemovingHint { .. } => StopRequestView::RemoveHint { path: self.hint_path },
        }
    }

    /// The decision that a session at its stage takes on `event`. An
    /// event that does not answer the session's request changes
    /// nothing, and the request is made again.
    pub open spec fn decide(self, event: StopEvent) -> StopNext {
        match self.stage {
            StopStage::Signalling { pid } => match event {
                StopEvent::Signalled => StopNext::Stage(StopStage::Gracing { pid }),
                _ => StopNext::Stage(self.stage),
            },
            StopStage::Gracing { pid } => match event {
                StopEvent::Waited => StopNext::Stage(StopStage::Checking { pid }),
                _ => StopNext::Stage(self.stage),
            },
            StopStage::Checking { pid } => match event {
                StopEvent::ChildExited => StopNext::Stage(
                    StopStage::RemovingHint { was_running: true },
                ),
                StopEvent::ChildRunning | StopEvent::ChildUnknown => StopNext::Stage(
                    StopStage::Killing { pid },
                ),
                _ => StopNext::Stage(self.stage),
            },
            StopStage::Killing { .. } => match event {
                StopEvent::Killed => StopNext::Stage(StopStage::RemovingHint { was_running: true }),
                _ => StopNext::Stage(self.stage),
            },
            StopStage::RemovingHint { was_running } => match event {
                StopEvent::HintRemoved => StopNext::Done(StopReport { was_running }),
                _ => StopNext::Stage(self.stage),
            },
        }
    }

    /// The step that leads the session to `next`.
    pub open spec fn step_to(self, next: StopNext) -> StopStepView {
        match next {
            StopNext::Stage(stage) => StopStepView::Continue(
                self.at(stage),
                self.at(stage).request(),
            ),
            StopNext::Done(report) => StopStepView::Done(report),
        }
    }
}

impl StopReport {
    /// The sentence that reports the stop to a caller.
    pub open spec fn message_text(self) -> Seq<char> {
        if self.was_running {
            "Python backend stopped"@
        } else {
            "Python backend is not running"@
        }
    }

    /// The sentence that reports the stop to a caller.
    pub fn message(&self) -> (message: String)
        ensures
            message@ == self.message_text(),
    {
        if self.was_running {
            String::from_str("Python backend stopped")
        } else {
            String::from_str("Python backend is not running")
        }
    }
}

impl StopSession {
    /// The stage the session stands at.
    pub fn stage(&self) -> (stage: StopStage)
        ensures
            stage == self@.stage,
    {
        self.stage
    }

    fn request(&self) -> (request: StopRequest)
        ensures
            request@ == self@.request(),
    {
        match self.stage {
            StopStage::Signalling { pid } => StopRequest::Terminate { pid },
            StopStage::Gracing { .. } => StopRequest::Sleep { millis: self.grace_period_ms },
            StopStage::Checking { pid } => StopRequest::CheckChild { pid },
            StopStage::Killing { pid } => StopRequest::Kill { pid },
            StopStage::RemovingHint { .. } => StopRequest::RemoveHint {
                path: self.hint_path.clone(),
            },
        }
    }

    fn advance(self, stage: StopStage) -> (step: StopStep)
        ensures
            step@ == self@.step_to(StopNext::Stage(stage)),
    {
        let session = StopSession {
            stage,
            grace_period_ms: self.grace_period_ms,
            hint_path: self.hint_path,
        };
        let request = session.request();
        StopStep::Continue(session, request)
    }

    /// Takes the next decision of the stop: `event` reports that the
    /// last request was attempted. The supervisor is not involved any
    /// more: the stop took what it needed at its beginning.
    pub fn step(self, event: StopEvent) -> (step: StopStep)
        ensures
            step@ == self@.step_to(self@.decide(event)),
    {
        let stage = self.stage;
        match stage {
            StopStage::Signalling { pid } => match event {
                StopEvent::Signalled => self.advance(StopStage::Gracing { pid }),
                _ => self.advance(stage),
            },
            StopStage::Gracing { pid } => match event {
                StopEvent::Waited => self.advance(StopStage::Checking { pid }),
                _ => self.advance(stage),
            },
            StopStage::Checking { pid } => match event {
                StopEvent::ChildExited => self.advance(
                    StopStage::RemovingHint { was_running: true },
                ),
                StopEvent::ChildRunning | StopEvent::ChildUnknown => self.advance(
                    StopStage::Killing { pid },
                ),
                _ => self.advance(stage),
            },
            StopStage::Killing { .. } => match event {
                StopEvent::Killed => self.advance(StopStage::RemovingHint { was_running: true }),
                _ => self.advance(stage),
            },
            StopStage::RemovingHint { was_running } => match event {
                StopEvent::HintRemoved => StopStep::Done(StopReport { was_running }),
                _ => self.advance(stage),
            },
        }
    }
}

impl Supervisor {
    /// Begins a stop and takes its first decision. The caller holds the
    /// supervisor's lock for this call.
    ///
    /// The recorded child and its port leave the record here, in one
    /// go, whether or not there was a child. The first request is that
    /// of the stage [`stop_entry`] names.
    pub fn begin_stop(&mut self) -> (step: StopStep)
        ensures
            final(self)@ == (SupervisorView { state: stop_state(old(self)@.state), ..old(self)@ }),
            final(self)@.state.stopped(),
            step@ == StopStepView::Continue(
                stop_session(old(self)@),
                stop_session(old(self)@).request(),
            ),
    {
        let state = self.snapshot();
        let platform = self.context().platform;
        let stage = match state.process {
            Some(pid) => match platform {
                Platform::Posix => StopStage::Signalling { pid },
                Platform::Windows => StopStage::Killing { pid },
            },
            None => StopStage::RemovingHint { was_running: false },
        };
        let session = StopSession {
            stage,
            grace_period_ms: self.config().grace_period_ms,
            hint_path: self.context().hint_path(),
        };
        self.store(SupervisorState { process: None, port: None, ..state });
        let request = session.request();
        StopStep::Continue(session, request)
    }
}

} // verus!
