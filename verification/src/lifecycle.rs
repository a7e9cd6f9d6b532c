//! How the supervisor is tied to the life of the application shell:
//! which shell events start and stop the backend, what is broadcast to
//! the shell, and what a command hands back.

use vstd::prelude::*;
use crate::config::SupervisorConfig;
use crate::info::BackendInfo;
use crate::start::{StartOutcome, StartOutcomeView};

verus! {

/// An event in the life of the application shell.
#[derive(Clone, Copy, Debug, PartialEq, Eq, Structural)]
pub enum ShellEvent {
    /// The application has been set up.
    Setup,
    /// The user asked for a window to be closed.
    WindowCloseRequested,
    /// A window has been destroyed.
    WindowDestroyed,
    /// Anything else.
    Other,
}

/// What the supervisor wants done on a shell event.
#[derive(Clone, Copy, Debug, PartialEq, Eq, Structural)]
pub enum LifecycleAction {
    /// Start the backend in the background once `delay_ms` milliseconds
    /// have passed, and broadcast an error if the start fails.
    StartAfter { delay_ms: u64 },
    /// Stop the backend now and wait for the stop to end.
    Stop,
    /// Nothing.
    Nothing,
}

/// A message for the shell.
#[derive(Clone, Debug, PartialEq, Eq)]
pub enum Broadcast {
    /// The backend has become ready.
    Ready(BackendInfo),
    /// An automatic start has failed; the text says why.
    Error(String),
}

/// The mathematical content of a [`Broadcast`].
pub enum BroadcastView {
    Ready(BackendInfo),
    Error(Seq<char>),
}

impl View for Broadcast {
    type V = BroadcastView;

    open spec fn view(&self) -> BroadcastView {
        match self {
            Broadcast::Ready(info) => BroadcastView::Ready(*info),
            Broadcast::Error(error) => BroadcastView::Error(error@),
        }
    }
}

/// What a shell event asks for: the backend is started, after a short
/// delay, when the application has been set up, and stopped when a
/// window is about to close or has been destroyed.
pub open spec fn lifecycle_action(config: SupervisorConfig, event: ShellEvent) -> LifecycleAction {
    match event {
        ShellEvent::Setup => LifecycleAction::StartAfter { delay_ms: config.auto_start_delay_ms },
        ShellEvent::WindowCloseRequested => LifecycleAction::Stop,
        ShellEvent::WindowDestroyed => LifecycleAction::Stop,
        ShellEvent::Other => LifecycleAction::Nothing,
    }
}

/// What the shell is told at the end of a start. A backend that has
/// become ready is always announced. A failure is announced only where
/// the start was automatic: a command hands its failure to its caller.
pub open spec fn announcement_of(outcome: StartOutcomeView, automatic: bool) -> Option<
    BroadcastView,
> {
    match outcome {
        StartOutcomeView::Ready(info) => Some(BroadcastView::Ready(info)),
        StartOutcomeView::AlreadyRunning(_) => None,
        StartOutcomeView::Failed(error) => if automatic {
            Some(BroadcastView::Error(error.message_text()))
        } else {
            None
        },
    }
}

/// What a start command hands back: the report, or the failure in words.
pub open spec fn command_result_of(outcome: StartOutcomeView) -> Result<BackendInfo, Seq<char>> {
    match outcome {
        StartOutcomeView::Ready(info) => Ok(info),
        StartOutcomeView::AlreadyRunning(info) => Ok(info),
        StartOutcomeView::Failed(error) => Err(error.message_text()),
    }
}

/// The content of what [`command_result`] hands back.
pub open spec fn result_view(result: Result<BackendInfo, String>) -> Result<BackendInfo, Seq<char>> {
    match result {
        Ok(info) => Ok(info),
        Err(error) => Err(error@),
    }
}

/// The content of what [`announcement`] hands back.
pub open spec fn broadcast_view(broadcast: Option<Broadcast>) -> Option<BroadcastView> {
    match broadcast {
        Some(broadcast) => Some(broadcast@),
        None => None,
    }
}

impl Broadcast {
    /// The name under which the message is broadcast.
    pub open spec fn event_name_text(self) -> Seq<char> {
        match self {
            Broadcast::Ready(_) => "backend-ready"@,
            Broadcast::Error(_) => "backend-error"@,
        }
    }

    /// The name under which the message is broadcast.
    pub fn event_name(&self) -> (name: &'static str)
        ensures
            name@ == self.event_name_text(),
    {
        match self {
            Broadcast::Ready(_) => "backend-ready",
            Broadcast::Error(_) => "backend-error",
        }
    }
}

/// Decides what a shell event asks of the supervisor.
pub fn on_shell_event(config: &SupervisorConfig, event: ShellEvent) -> (action: LifecycleAction)
    ensures
        action == lifecycle_action(*config, event),
{
    match event {
        ShellEvent::Setup => LifecycleAction::StartAfter { delay_ms: config.auto_start_delay_ms },
        ShellEvent::WindowCloseRequested => LifecycleAction::Stop,
        ShellEvent::WindowDestroyed => LifecycleAction::Stop,
        ShellEvent::Other => LifecycleAction::Nothing,
    }
}

/// Decides what the shell is told at the end of a start; `automatic`
/// tells whether the start was the one made at application setup.
pub fn announcement(outcome: &StartOutcome, automatic: bool) -> (broadcast: Option<Broadcast>)
    ensures
        broadcast_view(broadcast) == announcement_of(outcome@, automatic),
{
    match outcome {
        StartOutcome::Ready(info) => Some(Broadcast::Ready(*info)),
        StartOutcome::AlreadyRunning(_) => None,
        StartOutcome::Failed(error) => if automatic {
            Some(Broadcast::Error(error.message()))
        } else {
            None
        },
    }
}

/// Turns the end of a start into what a start command hands back.
pub fn command_result(outcome: StartOutcome) -> (result: Result<BackendInfo, String>)
    ensures
        result_view(result) == command_result_of(outcome@),
{
    match outcome {
        StartOutcome::Ready(info) => Ok(info),
        StartOutcome::AlreadyRunning(info) => Ok(info),
        StartOutcome::Failed(error) => Err(error.message()),
    }
}

} // verus!
