use backend_supervisor::config::{Platform, SupervisorConfig};
use backend_supervisor::info::{BackendInfo, BackendStatus};
use backend_supervisor::paths::{BuildLayout, LaunchContext};
use backend_supervisor::start::{StartEvent, StartRequest, StartStep};
use backend_supervisor::stop::{StopEvent, StopReport, StopRequest, StopStage, StopStep};
use backend_supervisor::supervisor::{StatusStep, Supervisor, SupervisorState};

fn context_on(platform: Platform) -> LaunchContext {
    LaunchContext {
        platform,
        layout: BuildLayout::Development { working_dir: "/work".to_string() },
        data_dir: "/data".to_string(),
    }
}

/// A supervisor that records the child 77 on port 8000.
fn started_on(platform: Platform) -> Supervisor {
    let mut supervisor = Supervisor::new(SupervisorConfig::standard(), context_on(platform));
    let mut step = supervisor.begin_start();
    loop {
        match step {
            StartStep::Done(outcome) => panic!("ended early: {:?}", outcome),
            StartStep::Continue(session, request) => {
                let event = match request {
                    StartRequest::TryBind { .. } => StartEvent::BindTried { bound: true },
                    StartRequest::ProbeDirs { .. } => StartEvent::DirsProbed { exists: vec![true, true] },
                    StartRequest::ProbeFiles { .. } => {
                        StartEvent::FilesProbed { venv_interpreter: false, entry_script: true }
                    }
                    StartRequest::Spawn { .. } => StartEvent::Spawned { pid: 77 },
                    StartRequest::WriteHint { .. } => StartEvent::HintWritten,
                    StartRequest::ProbeHealth { .. } => StartEvent::HealthProbed { healthy: true },
                    other => panic!("unexpected request {:?}", other),
                };
                step = session.step(&mut supervisor, event, 0);
                if let StartStep::Done(_) = step {
                    return supervisor;
                }
            }
        }
    }
}

fn run_stop(supervisor: &mut Supervisor, child_exits_on_signal: bool) -> (StopReport, Vec<StopRequest>) {
    let mut log = Vec::new();
    let mut step = supervisor.begin_stop();
    loop {
        match step {
            StopStep::Done(report) => return (report, log),
            StopStep::Continue(session, request) => {
                let event = match &request {
                    StopRequest::Terminate { .. } => StopEvent::Signalled,
                    StopRequest::Sleep { .. } => StopEvent::Waited,
                    StopRequest::CheckChild { .. } => {
                        if child_exits_on_signal {
                            StopEvent::ChildExited
                        } else {
                            StopEvent::ChildRunning
                        }
                    }
                    StopRequest::Kill { .. } => StopEvent::Killed,
                    StopRequest::RemoveHint { .. } => StopEvent::HintRemoved,
                };
                log.push(request);
                step = session.step(event);
            }
        }
    }
}

#[test]
fn stop_on_a_fresh_supervisor_only_removes_the_hint() {
    let mut supervisor = Supervisor::new(SupervisorConfig::standard(), context_on(Platform::Posix));
    let (report, log) = run_stop(&mut supervisor, true);
    assert_eq!(report, StopReport { was_running: false });
    assert_eq!(report.message(), "Python backend is not running");
    assert_eq!(log, vec![StopRequest::RemoveHint { path: "/data/backend_port".to_string() }]);
    assert_eq!(supervisor.snapshot(), SupervisorState { process: None, port: None, starting: false });
}

#[test]
fn stop_can_be_repeated_any_number_of_times() {
    let mut supervisor = started_on(Platform::Posix);
    let (first, _) = run_stop(&mut supervisor, true);
    assert_eq!(first, StopReport { was_running: true });
    let after_first = supervisor.snapshot();
    for _ in 0..5 {
        let (report, log) = run_stop(&mut supervisor, true);
        assert_eq!(report, StopReport { was_running: false });
        assert_eq!(log, vec![StopRequest::RemoveHint { path: "/data/backend_port".to_string() }]);
        assert_eq!(supervisor.snapshot(), after_first);
    }
}

#[test]
fn port_is_absent_after_stop() {
    let mut supervisor = started_on(Platform::Posix);
    assert_eq!(supervisor.port(), Some(8000));
    let (report, log) = run_stop(&mut supervisor, true);
    assert_eq!(report.message(), "Python backend stopped");
    assert_eq!(supervisor.port(), None);
    assert_eq!(supervisor.process(), None);
    assert_eq!(log.last(), Some(&StopRequest::RemoveHint { path: "/data/backend_port".to_string() }));
    assert_eq!(supervisor.begin_status(), StatusStep::Report(BackendInfo::stopped()));
}

#[test]
fn graceful_stop_spares_the_kill_when_the_child_exits() {
    let mut supervisor = started_on(Platform::Posix);
    let (report, log) = run_stop(&mut supervisor, true);
    assert_eq!(report, StopReport { was_running: true });
    assert_eq!(
        log,
        vec![
            StopRequest::Terminate { pid: 77 },
            StopRequest::Sleep { millis: 500 },
            StopRequest::CheckChild { pid: 77 },
            StopRequest::RemoveHint { path: "/data/backend_port".to_string() },
        ]
    );
}

#[test]
fn graceful_stop_kills_a_child_that_outlives_the_grace_period() {
    let mut supervisor = started_on(Platform::Posix);
    let (report, log) = run_stop(&mut supervisor, false);
    assert_eq!(report, StopReport { was_running: true });
    assert_eq!(
        log,
        vec![
            StopRequest::Terminate { pid: 77 },
            StopRequest::Sleep { millis: 500 },
            StopRequest::CheckChild { pid: 77 },
            StopRequest::Kill { pid: 77 },
            StopRequest::RemoveHint { path: "/data/backend_port".to_string() },
        ]
    );
}

#[test]
fn stop_without_graceful_signal_kills_at_once() {
    let mut supervisor = started_on(Platform::Windows);
    let (report, log) = run_stop(&mut supervisor, false);
    assert_eq!(report, StopReport { was_running: true });
    assert_eq!(
        log,
        vec![
            StopRequest::Kill { pid: 77 },
            StopRequest::RemoveHint { path: "/data/backend_port".to_string() },
        ]
    );
}

#[test]
fn stop_treats_an_unreadable_child_as_running() {
    let mut supervisor = started_on(Platform::Posix);
    let mut step = supervisor.begin_stop();
    for event in [StopEvent::Signalled, StopEvent::Waited, StopEvent::ChildUnknown] {
        step = match step {
            StopStep::Continue(session, _) => session.step(event),
            StopStep::Done(_) => panic!("ended early"),
        };
    }
    match step {
        StopStep::Continue(session, request) => {
            assert_eq!(request, StopRequest::Kill { pid: 77 });
            assert_eq!(session.stage(), StopStage::Killing { pid: 77 });
        }
        StopStep::Done(_) => panic!("ended early"),
    }
}

#[test]
fn stop_repeats_its_request_on_an_unexpected_event() {
    let mut supervisor = started_on(Platform::Posix);
    let step = supervisor.begin_stop();
    let session = match step {
        StopStep::Continue(session, request) => {
            assert_eq!(request, StopRequest::Terminate { pid: 77 });
            session
        }
        StopStep::Done(_) => panic!("ended early"),
    };
    match session.step(StopEvent::HintRemoved) {
        StopStep::Continue(session, request) => {
            assert_eq!(request, StopRequest::Terminate { pid: 77 });
            assert_eq!(session.stage(), StopStage::Signalling { pid: 77 });
        }
        StopStep::Done(_) => panic!("an unexpected event ends nothing"),
    }
}

#[test]
fn stop_leaves_a_start_in_progress_marked() {
    let mut supervisor = Supervisor::new(SupervisorConfig::standard(), context_on(Platform::Posix));
    let _start = supervisor.begin_start();
    assert!(supervisor.snapshot().starting);
    let _ = run_stop(&mut supervisor, true);
    assert_eq!(supervisor.snapshot(), SupervisorState { process: None, port: None, starting: true });
}

#[test]
fn status_of_a_fresh_supervisor_is_stopped() {
    let supervisor = Supervisor::new(SupervisorConfig::standard(), context_on(Platform::Posix));
    assert_eq!(
        supervisor.begin_status(),
        StatusStep::Report(BackendInfo { status: BackendStatus::Stopped, port: None })
    );
    assert_eq!(supervisor.port(), None);
}

#[test]
fn status_probes_the_recorded_port() {
    let supervisor = started_on(Platform::Posix);
    let before = supervisor.snapshot();
    assert_eq!(supervisor.begin_status(), StatusStep::Probe { port: 8000 });
    assert_eq!(
        Supervisor::conclude_status(8000, true),
        BackendInfo { status: BackendStatus::Healthy, port: Some(8000) }
    );
    assert_eq!(
        Supervisor::conclude_status(8000, false),
        BackendInfo { status: BackendStatus::Unhealthy, port: Some(8000) }
    );
    assert_eq!(supervisor.snapshot(), before);
}

#[test]
fn supervisor_keeps_its_settings_and_surroundings() {
    let config = SupervisorConfig::standard().with_port_range(9100, 9105);
    let supervisor = Supervisor::new(config, context_on(Platform::Windows));
    assert_eq!(supervisor.config(), config);
    assert_eq!(supervisor.context(), &context_on(Platform::Windows));
    assert_eq!(supervisor.context().hint_path(), "/data/backend_port");
}
