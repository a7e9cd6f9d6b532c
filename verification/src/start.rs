//! Starting the backend, one decision at a time.
//!
//! A start is a conversation. The supervisor asks for one thing (probe
//! this port, try to bind that one, spawn this command, sleep so long);
//! the caller does it without holding the supervisor's lock and reports
//! what happened; the supervisor decides what comes next. Each decision
//! is one short critical section, so no lock is ever held across a
//! network call or a sleep.
//!
//! The order of a start: if a child is recorded and answers on its
//! port, that is reported and nothing is spawned. Otherwise a port is
//! found, the backend is located on disk, the child is spawned, child and
//! port are recorded together, the port hint is written, and the health
//! endpoint is polled until it answers, the child exits, or the startup
//! timeout elapses.
//!
//! Only one start works at a time: a start takes the start slot at its
//! first decision and frees it with its last; a start that finds the
//! slot taken sleeps and looks again.

use vstd::prelude::*;
use crate::config::{SupervisorConfig, STDERR_EXCERPT_LINES};
use crate::error::{StartError, StartErrorView};
use crate::info::{BackendInfo, BackendStatus};
use crate::paths::{
    candidate_dirs,
    entry_script,
    entry_script_path,
    first_existing,
    hint_path_in,
    interpreter_choice,
    launch_arguments,
    launch_arguments_of,
    resolve_interpreter,
    select_existing,
    venv_interpreter,
    venv_interpreter_path,
    LaunchContext,
    LaunchContextView,
};
use crate::ports::PortRange;
use crate::supervisor::{Supervisor, SupervisorState, SupervisorView};
use crate::text::{decimal, decimal_string, texts};

verus! {

/// Where a start stands: what it has settled and what it waits for.
#[derive(Clone, Copy, Debug, PartialEq, Eq, Structural)]
pub enum StartStage {
    /// Another start holds the slot; waiting for the sleep to end.
    AwaitingTurn,
    /// A child is recorded; waiting for the probe of its port.
    ProbingExisting { port: u16 },
    /// Waiting to hear whether `candidate` could be bound.
    ScanningPorts { candidate: u16 },
    /// Waiting to hear which candidate directories exist.
    LocatingBackend { port: u16 },
    /// Waiting to hear which files of the chosen directory exist.
    InspectingBackend { port: u16, dir: usize },
    /// Waiting for the child to be spawned.
    Spawning { port: u16, dir: usize, venv: bool },
    /// The child is recorded; waiting for the port hint to be written.
    WritingHint { port: u16, pid: u32 },
    /// Polling: waiting for the probe of the child's port.
    Probing { port: u16, pid: u32, since: u64 },
    /// Polling: waiting to hear whether the child is still alive.
    CheckingChild { port: u16, pid: u32, since: u64 },
    /// Polling: waiting for the sleep between two probes to end.
    Sleeping { port: u16, pid: u32, since: u64 },
}

/// One start attempt in progress.
#[derive(Debug)]
pub struct StartSession {
    stage: StartStage,
    config: SupervisorConfig,
    context: LaunchContext,
}

/// The mathematical content of a [`StartSession`].
pub struct StartSessionView {
    pub stage: StartStage,
    pub config: SupervisorConfig,
    pub context: LaunchContextView,
}

/// What the caller is asked to do next.
#[derive(Clone, Debug, PartialEq, Eq)]
pub enum StartRequest {
    /// Sleep for `millis` milliseconds, then report `Waited`.
    Sleep { millis: u64 },
    /// Probe the health endpoint on `port`, then report `HealthProbed`.
    ProbeHealth { port: u16 },
    /// Try to bind a loopback listener on `port` and release it at
    /// once, then report `BindTried`.
    TryBind { port: u16 },
    /// Look which of `candidates` exist as directories, then report
    /// `DirsProbed` with one flag for each, in the same order.
    ProbeDirs { candidates: Vec<String> },
    /// Look whether these two files exist, then report `FilesProbed`.
    ProbeFiles { venv_interpreter: String, entry_script: String },
    /// Spawn `program` with `arguments` in `working_dir`, its standard
    /// output and standard error captured, then report `Spawned` or
    /// `SpawnFailed`.
    Spawn { program: String, arguments: Vec<String>, working_dir: String },
    /// Write `contents` to the file `path`, then report `HintWritten`
    /// or `HintWriteFailed`.
    WriteHint { path: String, contents: String },
    /// Look whether the child `pid` has exited, without waiting, then
    /// report `ChildRunning`, `ChildExited` or `ChildUnknown`.
    CheckChild { pid: u32 },
}

/// The mathematical content of a [`StartRequest`].
pub enum StartRequestView {
    Sleep { millis: u64 },
    ProbeHealth { port: u16 },
    TryBind { port: u16 },
    ProbeDirs { candidates: Seq<Seq<char>> },
    ProbeFiles { venv_interpreter: Seq<char>, entry_script: Seq<char> },
    Spawn { program: Seq<char>, arguments: Seq<Seq<char>>, working_dir: Seq<char> },
    WriteHint { path: Seq<char>, contents: Seq<char> },
    CheckChild { pid: u32 },
}

/// What the caller reports back.
#[derive(Clone, Debug, PartialEq, Eq)]
pub enum StartEvent {
    /// The requested sleep is over.
    Waited,
    /// The probe was made; `healthy` is its verdict.
    HealthProbed { healthy: bool },
    /// The bind was tried; `bound` tells whether it succeeded.
    BindTried { bound: bool },
    /// `exists[i]` tells whether the `i`-th candidate directory exists.
    DirsProbed { exists: Vec<bool> },
    /// Whether each of the two files exists.
    FilesProbed { venv_interpreter: bool, entry_script: bool },
    /// The child runs, with this process id.
    Spawned { pid: u32 },
    /// The operating system refused to launch the child.
    SpawnFailed { reason: String },
    /// The port hint is on disk.
    HintWritten,
    /// The port hint could not be written.
    HintWriteFailed { reason: String },
    /// The child has not exited.
    ChildRunning,
    /// The child has exited, with this code if it left one; `stderr`
    /// holds the lines it wrote to standard error, first line first.
    ChildExited { code: Option<i32>, stderr: Vec<String> },
    /// The child's condition could not be read.
    ChildUnknown,
}

/// The mathematical content of a [`StartEvent`].
pub enum StartEventView {
    Waited,
    HealthProbed { healthy: bool },
    BindTried { bound: bool },
    DirsProbed { exists: Seq<bool> },
    FilesProbed { venv_interpreter: bool, entry_script: bool },
    Spawned { pid: u32 },
    SpawnFailed { reason: Seq<char> },
    HintWritten,
    HintWriteFailed { reason: Seq<char> },
    ChildRunning,
    ChildExited { code: Option<i32>, stderr: Seq<Seq<char>> },
    ChildUnknown,
}

/// How a start ended.
#[derive(Clone, Debug, PartialEq, Eq)]
pub enum StartOutcome {
    /// The recorded backend answered; nothing was spawned.
    AlreadyRunning(BackendInfo),
    /// A new child was spawned and has answered. The caller announces
    /// it to the shell.
    Ready(BackendInfo),
    /// The start failed.
    Failed(StartError),
}

/// The mathematical content of a [`StartOutcome`].
pub enum StartOutcomeView {
    AlreadyRunning(BackendInfo),
    Ready(BackendInfo),
    Failed(StartErrorView),
}

/// The result of one decision: the next request, with the session to
/// report back to, or the end of the start.
#[derive(Debug)]
pub enum StartStep {
    Continue(StartSession, StartRequest),
    Done(StartOutcome),
}

/// The mathematical content of a [`StartStep`].
pub enum StartStepView {
    Continue(StartSessionView, StartRequestView),
    Done(StartOutcomeView),
}

/// What a decision leads to: a further stage, or the end.
pub enum StartNext {
    Stage(StartStage),
    Done(StartOutcomeView),
}

/// A decision: what comes next, and the record it leaves.
pub struct StartTransition {
    pub next: StartNext,
    pub state: SupervisorState,
}

impl View for StartSession {
    type V = StartSessionView;

    closed spec fn view(&self) -> StartSessionView {
        StartSessionView { stage: self.stage, config: self.config, context: self.context@ }
    }
}

impl View for StartRequest {
    type V = StartRequestView;

    open spec fn view(&self) -> StartRequestView {
        match self {
            StartRequest::Sleep { millis } => StartRequestView::Sleep { millis: *millis },
            StartRequest::ProbeHealth { port } => StartRequestView::ProbeHealth { port: *port },
            StartRequest::TryBind { port } => StartRequestView::TryBind { port: *port },
            StartRequest::ProbeDirs { candidates } => StartRequestView::ProbeDirs {
                candidates: texts(candidates@),
            },
            StartRequest::ProbeFiles { venv_interpreter, entry_script } => {
                StartRequestView::ProbeFiles {
                    venv_interpreter: venv_interpreter@,
                    entry_script: entry_script@,
                }
            },
            StartRequest::Spawn { program, arguments, working_dir } => StartRequestView::Spawn {
                program: program@,
                arguments: texts(arguments@),
                working_dir: working_dir@,
            },
            StartRequest::WriteHint { path, contents } => StartRequestView::WriteHint {
                path: path@,
                contents: contents@,
            },
            StartRequest::CheckChild { pid } => StartRequestView::CheckChild { pid: *pid },
        }
    }
}

impl View for StartEvent {
    type V = StartEventView;

    open spec fn view(&self) -> StartEventView {
        match self {
            StartEvent::Waited => StartEventView::Waited,
            StartEvent::HealthProbed { healthy } => StartEventView::HealthProbed {
                healthy: *healthy,
            },
            StartEvent::BindTried { bound } => StartEventView::BindTried { bound: *bound },
            StartEvent::DirsProbed { exists } => StartEventView::DirsProbed { exists: exists@ },
            StartEvent::FilesProbed { venv_interpreter, entry_script } => {
                StartEventView::FilesProbed {
                    venv_interpreter: *venv_interpreter,
                    entry_script: *entry_script,
                }
            },
            StartEvent::Spawned { pid } => StartEventView::Spawned { pid: *pid },
            StartEvent::SpawnFailed { reason } => StartEventView::SpawnFailed { reason: reason@ },
            StartEvent::HintWritten => StartEventView::HintWritten,
            StartEvent::HintWriteFailed { reason } => StartEventView::HintWriteFailed {
                reason: reason@,
            },
            StartEvent::ChildRunning => StartEventView::ChildRunning,
            StartEvent::ChildExited { code, stderr } => StartEventView::ChildExited {
                code: *code,
                stderr: texts(stderr@),
            },
            StartEvent::ChildUnknown => StartEventView::ChildUnknown,
        }
    }
}

impl View for StartOutcome {
    type V = StartOutcomeView;

    open spec fn view(&self) -> StartOutcomeView {
        match self {
            StartOutcome::AlreadyRunning(info) => StartOutcomeView::AlreadyRunning(*info),
            StartOutcome::Ready(info) => StartOutcomeView::Ready(*info),
            StartOutcome::Failed(error) => StartOutcomeView::Failed(error@),
        }
    }
}

impl View for StartStep {
    type V = StartStepView;

    open spec fn view(&self) -> StartStepView {
        match self {
            StartStep::Continue(session, request) => StartStepView::Continue(session@, request@),
            StartStep::Done(outcome) => StartStepView::Done(outcome@),
        }
    }
}

/// The time that has passed between `since` and `now`, in
/// milliseconds; zero if the clock reads earlier than `since`.
pub open spec fn elapsed_ms(since: u64, now: u64) -> int {
    if now >= since {
        now - since
    } else {
        0
    }
}

/// Whether the startup timeout has elapsed at `now` for a wait that
/// began at `since`.
pub open spec fn timed_out(config: SupervisorConfig, since: u64, now: u64) -> bool {
    elapsed_ms(since, now) >= config.startup_timeout_ms
}

/// The part of a child's standard error that a report keeps: its
/// first lines, ten at most.
pub open spec fn stderr_excerpt(lines: Seq<Seq<char>>) -> Seq<Seq<char>> {
    if lines.len() <= STDERR_EXCERPT_LINES {
        lines
    } else {
        lines.take(STDERR_EXCERPT_LINES as int)
    }
}

impl StartSessionView {
    /// The candidate ports of the session.
    pub open spec fn range(self) -> PortRange {
        PortRange { start: self.config.port_start, end: self.config.port_end }
    }

    /// The directories in which the session looks for the backend.
    pub open spec fn dirs(self) -> Seq<Seq<char>> {
        candidate_dirs(self.context.layout)
    }

    /// The session at another stage.
    pub open spec fn at(self, stage: StartStage) -> StartSessionView {
        StartSessionView { stage, ..self }
    }

    /// Whether the stage fits the session: a chosen directory is one of
    /// the candidates.
    pub open spec fn wf(self) -> bool {
        match self.stage {
            StartStage::InspectingBackend { dir, .. } => dir < self.dirs().len(),
            StartStage::Spawning { dir, .. } => dir < self.dirs().len(),
            _ => true,
        }
    }

    /// Whether the session holds the start slot.
    pub open spec fn holds_slot(self) -> bool {
        self.stage != StartStage::AwaitingTurn
    }

    /// The request that the session waits on at its stage.
    pub open spec fn request(self) -> StartRequestView {
        match self.stage {
            StartStage::AwaitingTurn => StartRequestView::Sleep {
                millis: self.config.poll_interval_ms,
            },
            StartStage::ProbingExisting { port } => StartRequestView::ProbeHealth { port },
            StartStage::ScanningPorts { candidate } => StartRequestView::TryBind {
                port: candidate,
            },
            StartStage::LocatingBackend { .. } => StartRequestView::ProbeDirs {
                candidates: self.dirs(),
            },
            StartStage::InspectingBackend { dir, .. } => StartRequestView::ProbeFiles {
                venv_interpreter: venv_interpreter_path(
                    self.dirs()[dir as int],
                    self.context.platform,
                ),
                entry_script: entry_script_path(self.dirs()[dir as int]),
            },
            StartStage::Spawning { port, dir, venv } => StartRequestView::Spawn {
                program: interpreter_choice(self.dirs()[dir as int], self.context.platform, venv),
                arguments: launch_arguments_of(entry_script_path(self.dirs()[dir as int]), port),
                working_dir: self.dirs()[dir as int],
            },
            StartStage::WritingHint { port, .. } => StartRequestView::WriteHint {
                path: hint_path_in(self.context.data_dir),
                contents: decimal(port as nat),
            },
            StartStage::Probing { port, .. } => StartRequestView::ProbeHealth { port },
            StartStage::CheckingChild { pid, .. } => StartRequestView::CheckChild { pid },
            StartStage::Sleeping { .. } => StartRequestView::Sleep {
                millis: self.config.poll_interval_ms,
            },
        }
    }

    /// The step that leads the session to `next`.
    pub open spec fn step_to(self, next: StartNext) -> StartStepView {
        match next {
            StartNext::Stage(stage) => StartStepView::Continue(
                self.at(stage),
                self.at(stage).request(),
            ),
            StartNext::Done(outcome) => StartStepView::Done(outcome),
        }
    }

    /// The end of the start with `outcome`: the slot is freed.
    pub open spec fn finish(self, state: SupervisorState, outcome: StartOutcomeView)
        -> StartTransition {
        StartTransition { next: StartNext::Done(outcome), state: state.released() }
    }

    /// The end of the start with `error`: the slot is freed.
    pub open spec fn fail(self, state: SupervisorState, error: StartErrorView) -> StartTransition {
        self.finish(state, StartOutcomeView::Failed(error))
    }

    /// The session stays where it is and asks again.
    pub open spec fn stay(self, state: SupervisorState) -> StartTransition {
        StartTransition { next: StartNext::Stage(self.stage), state }
    }

    /// The first decision of a start, and the decision of a start whose
    /// turn may have come. With the slot taken it waits. With the slot
    /// free it takes the slot, and then probes the recorded child if
    /// there is one, and looks for a port if there is none.
    pub open spec fn enter(self, state: SupervisorState) -> StartTransition {
        if state.starting {
            StartTransition { next: StartNext::Stage(StartStage::AwaitingTurn), state }
        } else {
            match state.port {
                Some(port) if state.process is Some => StartTransition {
                    next: StartNext::Stage(StartStage::ProbingExisting { port }),
                    state: state.claimed(),
                },
                _ => self.scan(state.claimed()),
            }
        }
    }

    /// The decision to look for a port: the scan begins at the lowest
    /// candidate; an empty range fails the start at once.
    pub open spec fn scan(self, state: SupervisorState) -> StartTransition {
        match self.range().spec_first() {
            Some(candidate) => StartTransition {
                next: StartNext::Stage(StartStage::ScanningPorts { candidate }),
                state,
            },
            None => self.fail(state, self.ports_exhausted()),
        }
    }

    /// The failure of a scan that found no port.
    pub open spec fn ports_exhausted(self) -> StartErrorView {
        StartErrorView::PortExhausted { start: self.config.port_start, end: self.config.port_end }
    }

    /// The failure of a wait that outlasted the startup timeout.
    pub open spec fn startup_timeout(self, port: u16) -> StartErrorView {
        StartErrorView::StartupTimeout { port, timeout_ms: self.config.startup_timeout_ms }
    }

    /// The failure of a start whose child was taken away by a stop.
    pub open spec fn child_gone(self) -> StartErrorView {
        StartErrorView::EarlyExit { code: None, stderr: Seq::empty() }
    }

    /// The decision at a point of the polling loop where the wait may
    /// go on: it goes on to `stage` unless the timeout has elapsed.
    pub open spec fn keep_polling(
        self,
        state: SupervisorState,
        port: u16,
        since: u64,
        now: u64,
        stage: StartStage,
    ) -> StartTransition {
        if timed_out(self.config, since, now) {
            self.fail(state, self.startup_timeout(port))
        } else {
            StartTransition { next: StartNext::Stage(stage), state }
        }
    }

    /// The decision that a session at its stage takes on `event` at the
    /// time `now`, given the record `state`. An event that does not
    /// answer the session's request changes nothing, and the request is
    /// made again.
    pub open spec fn decide(self, state: SupervisorState, event: StartEventView, now: u64)
        -> StartTransition {
        match self.stage {
            StartStage::AwaitingTurn => match event {
                StartEventView::Waited => self.enter(state),
                _ => self.stay(state),
            },
            StartStage::ProbingExisting { port } => match event {
                StartEventView::HealthProbed { healthy } => if healthy && state.port == Some(port)
                    && state.process is Some {
                    self.finish(
                        state,
                        StartOutcomeView::AlreadyRunning(
                            BackendInfo { status: BackendStatus::Running, port: Some(port) },
                        ),
                    )
                } else {
                    self.scan(state)
                },
                _ => self.stay(state),
            },
            StartStage::ScanningPorts { candidate } => match event {
                StartEventView::BindTried { bound } => if bound {
                    StartTransition {
                        next: StartNext::Stage(StartStage::LocatingBackend { port: candidate }),
                        state,
                    }
                } else {
                    match self.range().spec_after(candidate) {
                        Some(next) => StartTransition {
                            next: StartNext::Stage(StartStage::ScanningPorts { candidate: next }),
                            state,
                        },
                        None => self.fail(state, self.ports_exhausted()),
                    }
                },
                _ => self.stay(state),
            },
            StartStage::LocatingBackend { port } => match event {
                StartEventView::DirsProbed { exists } => match first_existing(
                    exists,
                    self.dirs().len() as int,
                ) {
                    Some(dir) => StartTransition {
                        next: StartNext::Stage(
                            StartStage::InspectingBackend { port, dir: dir as usize },
                        ),
                        state,
                    },
                    None => self.fail(state, StartErrorView::PathResolution { tried: self.dirs() }),
                },
                _ => self.stay(state),
            },
            StartStage::InspectingBackend { port, dir } => match event {
                StartEventView::FilesProbed { venv_interpreter, entry_script } => if entry_script {
                    StartTransition {
                        next: StartNext::Stage(
                            StartStage::Spawning { port, dir, venv: venv_interpreter },
                        ),
                        state,
                    }
                } else {
                    self.fail(
                        state,
                        StartErrorView::PathResolution {
                            tried: seq![entry_script_path(self.dirs()[dir as int])],
                        },
                    )
                },
                _ => self.stay(state),
            },
            StartStage::Spawning { port, .. } => match event {
                StartEventView::Spawned { pid } => StartTransition {
                    next: StartNext::Stage(StartStage::WritingHint { port, pid }),
                    state: state.recording(pid, port),
                },
                StartEventView::SpawnFailed { reason } => self.fail(
                    state,
                    StartErrorView::SpawnFailure { reason },
                ),
                _ => self.stay(state),
            },
            StartStage::WritingHint { port, pid } => match event {
                StartEventView::HintWritten => self.keep_polling(
                    state,
                    port,
                    now,
                    now,
                    StartStage::Probing { port, pid, since: now },
                ),
                StartEventView::HintWriteFailed { reason } => self.fail(
                    state,
                    StartErrorView::IpcWriteFailure { reason },
                ),
                _ => self.stay(state),
            },
            StartStage::Probing { port, pid, since } => match event {
                StartEventView::HealthProbed { healthy } => if !state.records(pid, port) {
                    self.fail(state, self.child_gone())
                } else if healthy {
                    self.finish(
                        state,
                        StartOutcomeView::Ready(
                            BackendInfo { status: BackendStatus::Ready, port: Some(port) },
                        ),
                    )
                } else {
                    StartTransition {
                        next: StartNext::Stage(StartStage::CheckingChild { port, pid, since }),
                        state,
                    }
                },
                _ => self.stay(state),
            },
            StartStage::CheckingChild { port, pid, since } => match event {
                StartEventView::ChildExited { code, stderr } => self.fail(
                    if state.records(pid, port) {
                        state.cleared()
                    } else {
                        state
                    },
                    StartErrorView::EarlyExit { code, stderr: stderr_excerpt(stderr) },
                ),
                StartEventView::ChildRunning | StartEventView::ChildUnknown => if !state.records(
                    pid,
                    port,
                ) {
                    self.fail(state, self.child_gone())
                } else {
                    self.keep_polling(
                        state,
                        port,
                        since,
                        now,
                        StartStage::Sleeping { port, pid, since },
                    )
                },
                _ => self.stay(state),
            },
            StartStage::Sleeping { port, pid, since } => match event {
                StartEventView::Waited => self.keep_polling(
                    state,
                    port,
                    since,
                    now,
                    StartStage::Probing { port, pid, since },
                ),
                _ => self.stay(state),
            },
        }
    }
}

/// Whether `step` and the record `after` carry out the decision
/// `decision` of a session with the content `session`, taken on the
/// record `before`.
pub open spec fn carries_out(
    step: StartStep,
    after: SupervisorView,
    session: StartSessionView,
    before: SupervisorView,
    decision: StartTransition,
) -> bool {
    &&& step@ == session.step_to(decision.next)
    &&& after == (SupervisorView { state: decision.state, ..before })
    &&& after.state.consistent()
}

impl StartSession {
    /// Whether the stage fits the session. It does in every session, at
    /// all times.
    #[verifier::type_invariant]
    pub open spec fn wf(&self) -> bool {
        self@.wf()
    }

    /// The stage the session stands at.
    pub fn stage(&self) -> (stage: StartStage)
        ensures
            stage == self@.stage,
    {
        self.stage
    }

    fn range(&self) -> (range: PortRange)
        ensures
            range == self@.range(),
    {
        PortRange::new(self.config.port_start, self.config.port_end)
    }

    fn request(&self) -> (request: StartRequest)
        ensures
            request@ == self@.request(),
    {
        proof {
            use_type_invariant(self);
        }
        match self.stage {
            StartStage::AwaitingTurn => StartRequest::Sleep { millis: self.config.poll_interval_ms },
            StartStage::ProbingExisting { port } => StartRequest::ProbeHealth { port },
            StartStage::ScanningPorts { candidate } => StartRequest::TryBind { port: candidate },
            StartStage::LocatingBackend { .. } => StartRequest::ProbeDirs {
                candidates: self.context.layout.candidates(),
            },
            StartStage::InspectingBackend { dir, .. } => {
                let dirs = self.context.layout.candidates();
                assert(texts(dirs@)[dir as int] == dirs@[dir as int]@);
                let chosen = dirs[dir].as_str();
                StartRequest::ProbeFiles {
                    venv_interpreter: venv_interpreter(chosen, self.context.platform),
                    entry_script: entry_script(chosen),
                }
            },
            StartStage::Spawning { port, dir, venv } => {
                let dirs = self.context.layout.candidates();
                assert(texts(dirs@)[dir as int] == dirs@[dir as int]@);
                let chosen = dirs[dir].as_str();
                let script = entry_script(chosen);
                StartRequest::Spawn {
                    program: resolve_interpreter(chosen, self.context.platform, venv),
                    arguments: launch_arguments(script.as_str(), port),
                    working_dir: dirs[dir].clone(),
                }
            },
            StartStage::WritingHint { port, .. } => StartRequest::WriteHint {
                path: self.context.hint_path(),
                contents: decimal_string(port as u64),
            },
            StartStage::Probing { port, .. } => StartRequest::ProbeHealth { port },
            StartStage::CheckingChild { pid, .. } => StartRequest::CheckChild { pid },
            StartStage::Sleeping { .. } => StartRequest::Sleep {
                millis: self.config.poll_interval_ms,
            },
        }
    }

    fn advance(self, stage: StartStage) -> (step: StartStep)
        requires
            self@.at(stage).wf(),
        ensures
            step@ == self@.step_to(StartNext::Stage(stage)),
    {
        let session = StartSession { stage, config: self.config, context: self.context };
        let request = session.request();
        StartStep::Continue(session, request)
    }

    fn finish(self, supervisor: &mut Supervisor, state: SupervisorState, outcome: StartOutcome)
        -> (step: StartStep)
        requires
            state.consistent(),
        ensures
            carries_out(
                step,
                final(supervisor)@,
                self@,
                old(supervisor)@,
                self@.finish(state, outcome@),
            ),
    {
        supervisor.store(SupervisorState { starting: false, ..state });
        StartStep::Done(outcome)
    }

    fn fail(self, supervisor: &mut Supervisor, state: SupervisorState, error: StartError) -> (step:
        StartStep)
        requires
            state.consistent(),
        ensures
            carries_out(
                step,
                final(supervisor)@,
                self@,
                old(supervisor)@,
                self@.fail(state, error@),
            ),
    {
        self.finish(supervisor, state, StartOutcome::Failed(error))
    }

    fn go(self, supervisor: &mut Supervisor, state: SupervisorState, stage: StartStage) -> (step:
        StartStep)
        requires
            state.consistent(),
            self@.at(stage).wf(),
        ensures
            carries_out(
                step,
                final(supervisor)@,
                self@,
                old(supervisor)@,
                StartTransition { next: StartNext::Stage(stage), state },
            ),
    {
        supervisor.store(state);
        self.advance(stage)
    }

    fn stay(self, supervisor: &mut Supervisor) -> (step: StartStep)
        ensures
            carries_out(
                step,
                final(supervisor)@,
                self@,
                old(supervisor)@,
                self@.stay(old(supervisor)@.state),
            ),
    {
        let stage = self.stage;
        proof {
            use_type_invariant(&self);
            use_type_invariant(&*supervisor);
        }
        assert(self@.at(stage) == self@);
        self.advance(stage)
    }

    fn ports_exhausted(&self) -> (error: StartError)
        ensures
            error@ == self@.ports_exhausted(),
    {
        StartError::PortExhausted { start: self.config.port_start, end: self.config.port_end }
    }

    fn child_gone(&self) -> (error: StartError)
        ensures
            error@ == self@.child_gone(),
    {
        let error = StartError::EarlyExit { code: None, stderr: Vec::new() };
        assert(texts(Seq::<String>::empty()) =~= Seq::<Seq<char>>::empty());
        error
    }

    fn scan(self, supervisor: &mut Supervisor, state: SupervisorState) -> (step: StartStep)
        requires
            state.consistent(),
        ensures
            carries_out(step, final(supervisor)@, self@, old(supervisor)@, self@.scan(state)),
    {
        match self.range().first() {
            Some(candidate) => self.go(supervisor, state, StartStage::ScanningPorts { candidate }),
            None => {
                let error = self.ports_exhausted();
                self.fail(supervisor, state, error)
            },
        }
    }

    fn enter(self, supervisor: &mut Supervisor) -> (step: StartStep)
        ensures
            carries_out(
                step,
                final(supervisor)@,
                self@,
                old(supervisor)@,
                self@.enter(old(supervisor)@.state),
            ),
    {
        proof {
            use_type_invariant(&*supervisor);
        }
        let state = supervisor.snapshot();
        if state.starting {
            self.go(supervisor, state, StartStage::AwaitingTurn)
        } else {
            let claimed = SupervisorState { starting: true, ..state };
            match state.port {
                Some(port) => {
                    if state.process.is_some() {
                        self.go(supervisor, claimed, StartStage::ProbingExisting { port })
                    } else {
                        self.scan(supervisor, claimed)
                    }
                },
                None => self.scan(supervisor, claimed),
            }
        }
    }

    fn keep_polling(
        self,
        supervisor: &mut Supervisor,
        state: SupervisorState,
        port: u16,
        since: u64,
        now_ms: u64,
        stage: StartStage,
    ) -> (step: StartStep)
        requires
            state.consistent(),
            self@.at(stage).wf(),
        ensures
            carries_out(
                step,
                final(supervisor)@,
                self@,
                old(supervisor)@,
                self@.keep_polling(state, port, since, now_ms, stage),
            ),
    {
        let elapsed: u64 = if now_ms >= since {
            now_ms - since
        } else {
            0
        };
        if elapsed >= self.config.startup_timeout_ms {
            let error = StartError::StartupTimeout {
                port,
                timeout_ms: self.config.startup_timeout_ms,
            };
            self.fail(supervisor, state, error)
        } else {
            self.go(supervisor, state, stage)
        }
    }

    /// Takes the next decision of the start: `event` reports what came
    /// of the last request, `now_ms` is the reading of a monotonic clock
    /// in milliseconds. The caller holds the supervisor's lock for this
    /// call and for nothing else of the start.
    ///
    /// The decision is the one that [`StartSessionView::decide`]
    /// describes. The record changes only as the decision says, and
    /// stays consistent.
    pub fn step(self, supervisor: &mut Supervisor, event: StartEvent, now_ms: u64) -> (step:
        StartStep)
        ensures
            carries_out(
                step,
                final(supervisor)@,
                self@,
                old(supervisor)@,
                self@.decide(old(supervisor)@.state, event@, now_ms),
            ),
    {
        proof {
            use_type_invariant(&self);
            use_type_invariant(&*supervisor);
        }
        let state = supervisor.snapshot();
        match self.stage {
            StartStage::AwaitingTurn => match event {
                StartEvent::Waited => self.enter(supervisor),
                _ => self.stay(supervisor),
            },
            StartStage::ProbingExisting { port } => match event {
                StartEvent::HealthProbed { healthy } => {
                    if healthy && state.port == Some(port) && state.process.is_some() {
                        self.finish(
                            supervisor,
                            state,
                            StartOutcome::AlreadyRunning(BackendInfo::running(port)),
                        )
                    } else {
                        self.scan(supervisor, state)
                    }
                },
                _ => self.stay(supervisor),
            },
            StartStage::ScanningPorts { candidate } => match event {
                StartEvent::BindTried { bound } => {
                    if bound {
                        self.go(supervisor, state, StartStage::LocatingBackend { port: candidate })
                    } else {
                        match self.range().after(candidate) {
                            Some(next) => self.go(
                                supervisor,
                                state,
                                StartStage::ScanningPorts { candidate: next },
                            ),
                            None => {
                                let error = self.ports_exhausted();
                                self.fail(supervisor, state, error)
                            },
                        }
                    }
                },
                _ => self.stay(supervisor),
            },
            StartStage::LocatingBackend { port } => match event {
                StartEvent::DirsProbed { exists } => {
                    let dirs = self.context.layout.candidates();
                    match select_existing(&exists, dirs.len()) {
                        Some(dir) => self.go(
                            supervisor,
                            state,
                            StartStage::InspectingBackend { port, dir },
                        ),
                        None => self.fail(
                            supervisor,
                            state,
                            StartError::PathResolution { tried: dirs },
                        ),
                    }
                },
                _ => self.stay(supervisor),
            },
            StartStage::InspectingBackend { port, dir } => match event {
                StartEvent::FilesProbed { venv_interpreter, entry_script: script_present } => {
                    if script_present {
                        self.go(
                            supervisor,
                            state,
                            StartStage::Spawning { port, dir, venv: venv_interpreter },
                        )
                    } else {
                        let dirs = self.context.layout.candidates();
                        assert(texts(dirs@)[dir as int] == dirs@[dir as int]@);
                        let mut tried: Vec<String> = Vec::new();
                        tried.push(entry_script(dirs[dir].as_str()));
                        assert(texts(tried@) =~= seq![entry_script_path(self@.dirs()[dir as int])]);
                        self.fail(supervisor, state, StartError::PathResolution { tried })
                    }
                },
                _ => self.stay(supervisor),
            },
            StartStage::Spawning { port, .. } => match event {
                StartEvent::Spawned { pid } => self.go(
                    supervisor,
                    SupervisorState { process: Some(pid), port: Some(port), ..state },
                    StartStage::WritingHint { port, pid },
                ),
                StartEvent::SpawnFailed { reason } => self.fail(
                    supervisor,
                    state,
                    StartError::SpawnFailure { reason },
                ),
                _ => self.stay(supervisor),
            },
            StartStage::WritingHint { port, pid } => match event {
                StartEvent::HintWritten => self.keep_polling(
                    supervisor,
                    state,
                    port,
                    now_ms,
                    now_ms,
                    StartStage::Probing { port, pid, since: now_ms },
                ),
                StartEvent::HintWriteFailed { reason } => self.fail(
                    supervisor,
                    state,
                    StartError::IpcWriteFailure { reason },
                ),
                _ => self.stay(supervisor),
            },
            StartStage::Probing { port, pid, since } => match event {
                StartEvent::HealthProbed { healthy } => {
                    if !(state.process == Some(pid) && state.port == Some(port)) {
                        let error = self.child_gone();
                        self.fail(supervisor, state, error)
                    } else if healthy {
                        self.finish(supervisor, state, StartOutcome::Ready(BackendInfo::ready(port)))
                    } else {
                        self.go(supervisor, state, StartStage::CheckingChild { port, pid, since })
                    }
                },
                _ => self.stay(supervisor),
            },
            StartStage::CheckingChild { port, pid, since } => match event {
                StartEvent::ChildExited { code, stderr } => {
                    let mut lines = stderr;
                    lines.truncate(STDERR_EXCERPT_LINES);
                    assert(texts(lines@) =~= stderr_excerpt(texts(stderr@)));
                    let left = if state.process == Some(pid) && state.port == Some(port) {
                        SupervisorState { process: None, port: None, ..state }
                    } else {
                        state
                    };
                    self.fail(supervisor, left, StartError::EarlyExit { code, stderr: lines })
                },
                StartEvent::ChildRunning | StartEvent::ChildUnknown => {
                    if !(state.process == Some(pid) && state.port == Some(port)) {
                        let error = self.child_gone();
                        self.fail(supervisor, state, error)
                    } else {
                        self.keep_polling(
                            supervisor,
                            state,
                            port,
                            since,
                            now_ms,
                            StartStage::Sleeping { port, pid, since },
                        )
                    }
                },
                _ => self.stay(supervisor),
            },
            StartStage::Sleeping { port, pid, since } => match event {
                StartEvent::Waited => self.keep_polling(
                    supervisor,
                    state,
                    port,
                    since,
                    now_ms,
                    StartStage::Probing { port, pid, since },
                ),
                _ => self.stay(supervisor),
            },
        }
    }
}

impl Supervisor {
    /// Begins a start and takes its first decision. The caller holds the
    /// supervisor's lock for this call.
    ///
    /// The session works with the settings and surroundings that the
    /// supervisor has at this moment. Its first decision is
    /// [`StartSessionView::enter`].
    pub fn begin_start(&mut self) -> (step: StartStep)
        ensures
            carries_out(
                step,
                final(self)@,
                start_session(old(self)@),
                old(self)@,
                start_session(old(self)@).enter(old(self)@.state),
            ),
    {
        let session = StartSession {
            stage: StartStage::AwaitingTurn,
            config: self.config(),
            context: self.context().duplicate(),
        };
        session.enter(self)
    }
}

/// The content of the session that a start begins with on a supervisor
/// with the content `supervisor`.
pub open spec fn start_session(supervisor: SupervisorView) -> StartSessionView {
    StartSessionView {
        stage: StartStage::AwaitingTurn,
        config: supervisor.config,
        context: supervisor.context,
    }
}

} // verus!
