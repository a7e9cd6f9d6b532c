use backend_supervisor::config::{
    Platform, SupervisorConfig, DEFAULT_AUTO_START_DELAY_MS, DEFAULT_GRACE_PERIOD_MS,
    DEFAULT_POLL_INTERVAL_MS, DEFAULT_PORT_END, DEFAULT_PORT_START, DEFAULT_STARTUP_TIMEOUT_MS,
    STDERR_EXCERPT_LINES,
};
use backend_supervisor::error::StartError;
use backend_supervisor::health::{
    health_request, health_url, parse_status_code, probe, status_is_success, ProbeReply,
};
use backend_supervisor::info::{BackendInfo, BackendStatus};
use backend_supervisor::lifecycle::{
    announcement, command_result, on_shell_event, Broadcast, LifecycleAction, ShellEvent,
};
use backend_supervisor::paths::{
    entry_script, join, launch_arguments, resolve_backend_dir, resolve_interpreter,
    select_existing, venv_interpreter, BuildLayout,
};
use backend_supervisor::ports::PortRange;
use backend_supervisor::start::StartOutcome;
use backend_supervisor::text::{decimal_string, push_decimal, push_joined, push_signed_decimal};

fn scan(range: PortRange, busy: &[u16]) -> Option<u16> {
    let mut candidate = range.first();
    while let Some(port) = candidate {
        if !busy.contains(&port) {
            return Some(port);
        }
        candidate = range.after(port);
    }
    None
}

#[test]
fn scan_walks_the_range_in_ascending_order() {
    let range = PortRange::new(8500, 8502);
    assert_eq!(range.first(), Some(8500));
    assert_eq!(range.after(8500), Some(8501));
    assert_eq!(range.after(8501), Some(8502));
    assert_eq!(range.after(8502), None);
    assert_eq!(range.after(8499), None);
    assert_eq!(range.after(9000), None);
}

#[test]
fn scan_returns_the_first_free_port() {
    let range = PortRange::new(8500, 8502);
    assert_eq!(scan(range, &[]), Some(8500));
    assert_eq!(scan(range, &[8500]), Some(8501));
    assert_eq!(scan(range, &[8500, 8501]), Some(8502));
    assert_eq!(scan(range, &[8501]), Some(8500));
    assert_eq!(scan(range, &[8500, 8502]), Some(8501));
}

#[test]
fn scan_returns_nothing_when_the_range_is_occupied() {
    assert_eq!(scan(PortRange::new(8500, 8502), &[8500, 8501, 8502]), None);
    assert_eq!(scan(PortRange::new(8500, 8499), &[]), None);
    assert_eq!(scan(PortRange::new(65535, 65535), &[65535]), None);
    assert_eq!(scan(PortRange::new(65535, 65535), &[]), Some(65535));
}

#[test]
fn standard_settings_offer_one_hundred_and_one_ports() {
    let config = SupervisorConfig::standard();
    assert_eq!(config.port_start, DEFAULT_PORT_START);
    assert_eq!(config.port_end, DEFAULT_PORT_END);
    assert_eq!(config.port_end - config.port_start + 1, 101);
    assert_eq!(config.startup_timeout_ms, DEFAULT_STARTUP_TIMEOUT_MS);
    assert_eq!(config.poll_interval_ms, DEFAULT_POLL_INTERVAL_MS);
    assert_eq!(config.grace_period_ms, DEFAULT_GRACE_PERIOD_MS);
    assert_eq!(config.auto_start_delay_ms, DEFAULT_AUTO_START_DELAY_MS);
    assert_eq!(SupervisorConfig::default(), config);
    assert_eq!(STDERR_EXCERPT_LINES, 10);
}

#[test]
fn settings_can_be_adjusted() {
    let config = SupervisorConfig::standard().with_port_range(8500, 8502).with_startup_timing(50, 5);
    assert_eq!((config.port_start, config.port_end), (8500, 8502));
    assert_eq!((config.startup_timeout_ms, config.poll_interval_ms), (50, 5));
    assert_eq!(config.grace_period_ms, DEFAULT_GRACE_PERIOD_MS);
}

#[test]
fn decimal_numerals_are_exact() {
    assert_eq!(decimal_string(0), "0");
    assert_eq!(decimal_string(7), "7");
    assert_eq!(decimal_string(10), "10");
    assert_eq!(decimal_string(8502), "8502");
    assert_eq!(decimal_string(65535), "65535");
    assert_eq!(decimal_string(u64::MAX), "18446744073709551615");
    let mut text = String::from("port ");
    push_decimal(&mut text, 1234567890);
    assert_eq!(text, "port 1234567890");
}

#[test]
fn signed_numerals_carry_their_sign() {
    let mut text = String::new();
    push_signed_decimal(&mut text, -9);
    text.push(' ');
    push_signed_decimal(&mut text, 0);
    text.push(' ');
    push_signed_decimal(&mut text, i32::MIN);
    text.push(' ');
    push_signed_decimal(&mut text, i32::MAX);
    assert_eq!(text, "-9 0 -2147483648 2147483647");
}

#[test]
fn joining_puts_the_separator_between_neighbours() {
    let items = vec!["a".to_string(), "b".to_string(), "c".to_string()];
    let mut all = String::from(">");
    push_joined(&mut all, &items, ", ");
    assert_eq!(all, ">a, b, c");
    let mut two = String::new();
    push_joined(&mut two, &items[..2].to_vec(), "\n");
    assert_eq!(two, "a\nb");
    let mut one = String::new();
    push_joined(&mut one, &items[..1].to_vec(), ", ");
    assert_eq!(one, "a");
    let mut none = String::from("x");
    push_joined(&mut none, &Vec::new(), ", ");
    assert_eq!(none, "x");
}

#[test]
fn health_endpoint_is_on_the_loopback_interface() {
    assert_eq!(health_url(8502), "http://127.0.0.1:8502/health");
    assert_eq!(
        health_request(8502),
        "GET /health HTTP/1.1\r\nHost: 127.0.0.1:8502\r\nConnection: close\r\n\r\n"
    );
}

#[test]
fn status_code_is_read_off_the_status_line() {
    assert_eq!(parse_status_code(b"HTTP/1.1 200 OK\r\n\r\n{}"), Some(200));
    assert_eq!(parse_status_code(b"HTTP/1.0 404 Not Found\r\n"), Some(404));
    assert_eq!(parse_status_code(b"HTTP/1.1 503"), Some(503));
    assert_eq!(parse_status_code(b"HTTP/1.1 204\r\n"), Some(204));
    assert_eq!(parse_status_code(b""), None);
    assert_eq!(parse_status_code(b"HTTP/1.1 20"), None);
    assert_eq!(parse_status_code(b"HTTP/1.1 2000 OK"), None);
    assert_eq!(parse_status_code(b"HTTP/1.1  200 OK"), None);
    assert_eq!(parse_status_code(b"http/1.1 200 OK"), None);
    assert_eq!(parse_status_code(b"HTTP/x.1 200 OK"), None);
    assert_eq!(parse_status_code(b"HTTP/1.1 2x0 OK"), None);
    assert_eq!(parse_status_code(b"SSH-2.0-OpenSSH"), None);
}

#[test]
fn only_success_statuses_count_as_healthy() {
    assert!(!status_is_success(199));
    assert!(status_is_success(200));
    assert!(status_is_success(204));
    assert!(status_is_success(299));
    assert!(!status_is_success(300));
    assert!(!status_is_success(404));
    assert!(!status_is_success(500));
    assert!(probe(&ProbeReply::Response(b"HTTP/1.1 200 OK\r\n\r\n".to_vec())));
    assert!(!probe(&ProbeReply::Response(b"HTTP/1.1 500 Internal Server Error\r\n".to_vec())));
    assert!(!probe(&ProbeReply::Response(b"garbage".to_vec())));
    assert!(!probe(&ProbeReply::TransportError));
    assert!(!probe(&ProbeReply::TimedOut));
}

#[test]
fn candidate_directories_depend_on_the_build() {
    let dev = BuildLayout::Development { working_dir: "/src/app".to_string() };
    assert_eq!(dev.candidates(), vec!["/src/app/../python-backend", "/src/app/python-backend"]);
    let bundled = BuildLayout::Production {
        resource_dir: Some("/opt/app/res".to_string()),
        executable_dir: "/opt/app/bin".to_string(),
    };
    assert_eq!(
        bundled.candidates(),
        vec!["/opt/app/res/python-backend", "/opt/app/bin/python-backend"]
    );
    let bare = BuildLayout::Production { resource_dir: None, executable_dir: "/opt/app/bin".to_string() };
    assert_eq!(bare.candidates(), vec!["/opt/app/bin/python-backend"]);
    assert_eq!(bare.duplicate(), bare);
}

#[test]
fn first_existing_directory_is_chosen() {
    assert_eq!(select_existing(&vec![false, true, true], 3), Some(1));
    assert_eq!(select_existing(&vec![true, true], 2), Some(0));
    assert_eq!(select_existing(&vec![false, false], 2), None);
    assert_eq!(select_existing(&vec![], 2), None);
    // a flag beyond the candidates is not a candidate
    assert_eq!(select_existing(&vec![false, false, true], 2), None);
    // a candidate without a flag counts as absent
    assert_eq!(select_existing(&vec![false], 2), None);
}

#[test]
fn backend_directory_is_the_first_candidate_on_disk() {
    let dev = BuildLayout::Development { working_dir: "/w".to_string() };
    assert_eq!(resolve_backend_dir(&dev, &vec![true, true]), Ok("/w/../python-backend".to_string()));
    assert_eq!(resolve_backend_dir(&dev, &vec![false, true]), Ok("/w/python-backend".to_string()));
    assert_eq!(
        resolve_backend_dir(&dev, &vec![false, false]),
        Err(StartError::PathResolution {
            tried: vec!["/w/../python-backend".to_string(), "/w/python-backend".to_string()],
        })
    );
    let bare = BuildLayout::Production { resource_dir: None, executable_dir: "/x".to_string() };
    assert_eq!(resolve_backend_dir(&bare, &vec![true]), Ok("/x/python-backend".to_string()));
    assert_eq!(
        resolve_backend_dir(&bare, &vec![]),
        Err(StartError::PathResolution { tried: vec!["/x/python-backend".to_string()] })
    );
}

#[test]
fn interpreter_prefers_the_virtual_environment() {
    assert_eq!(resolve_interpreter("/b", Platform::Posix, true), "/b/venv/bin/python");
    assert_eq!(resolve_interpreter("/b", Platform::Posix, false), "python3");
    assert_eq!(resolve_interpreter("/b", Platform::Windows, true), "/b/venv/Scripts/python.exe");
    assert_eq!(resolve_interpreter("/b", Platform::Windows, false), "python");
    assert_eq!(venv_interpreter("/b", Platform::Posix), "/b/venv/bin/python");
    assert_eq!(entry_script("/b"), "/b/app.py");
    assert_eq!(join("/a", "b"), "/a/b");
}

#[test]
fn child_is_launched_with_script_and_port() {
    assert_eq!(launch_arguments("/b/app.py", 8502), vec!["/b/app.py", "--port", "8502"]);
}

#[test]
fn reports_carry_status_port_and_message() {
    assert_eq!(BackendStatus::Running.as_str(), "running");
    assert_eq!(BackendStatus::Ready.as_str(), "ready");
    assert_eq!(BackendStatus::Healthy.as_str(), "healthy");
    assert_eq!(BackendStatus::Unhealthy.as_str(), "unhealthy");
    assert_eq!(BackendStatus::Stopped.as_str(), "stopped");
    assert_eq!(BackendInfo::running(8000).message(), "Python backend is already running");
    assert_eq!(BackendInfo::ready(8502).message(), "Python backend started successfully");
    assert_eq!(BackendInfo::checked(8000, true).message(), "Python backend is healthy");
    assert_eq!(BackendInfo::checked(8000, false).message(), "Python backend is not responding");
    assert_eq!(BackendInfo::stopped().message(), "Python backend is not running");
    assert_eq!(BackendInfo::stopped().port, None);
}

#[test]
fn every_failure_has_its_message() {
    assert_eq!(
        StartError::PortExhausted { start: 8000, end: 8100 }.message(),
        "No available port between 8000 and 8100"
    );
    assert_eq!(
        StartError::PathResolution { tried: vec!["/a".to_string(), "/b".to_string()] }.message(),
        "Python backend files not found; tried: /a, /b"
    );
    assert_eq!(
        StartError::PathResolution { tried: vec![] }.message(),
        "Python backend files not found; tried: "
    );
    assert_eq!(
        StartError::SpawnFailure { reason: "not found".to_string() }.message(),
        "Failed to start Python backend: not found"
    );
    assert_eq!(
        StartError::StartupTimeout { port: 8000, timeout_ms: 30000 }.message(),
        "Python backend on port 8000 did not become ready within 30000 ms"
    );
    assert_eq!(
        StartError::EarlyExit { code: Some(1), stderr: vec![] }.message(),
        "Python backend exited with code 1 before becoming ready"
    );
    assert_eq!(
        StartError::EarlyExit { code: Some(-11), stderr: vec!["boom".to_string()] }.message(),
        "Python backend exited with code -11 before becoming ready: boom"
    );
    assert_eq!(
        StartError::EarlyExit { code: None, stderr: vec!["a".to_string(), "b".to_string()] }.message(),
        "Python backend exited before becoming ready: a\nb"
    );
    assert_eq!(
        StartError::IpcWriteFailure { reason: "disk full".to_string() }.message(),
        "Failed to write port file: disk full"
    );
}

#[test]
fn shell_events_start_and_stop_the_backend() {
    let config = SupervisorConfig::standard();
    assert_eq!(
        on_shell_event(&config, ShellEvent::Setup),
        LifecycleAction::StartAfter { delay_ms: 1000 }
    );
    assert_eq!(on_shell_event(&config, ShellEvent::WindowCloseRequested), LifecycleAction::Stop);
    assert_eq!(on_shell_event(&config, ShellEvent::WindowDestroyed), LifecycleAction::Stop);
    assert_eq!(on_shell_event(&config, ShellEvent::Other), LifecycleAction::Nothing);
}

#[test]
fn readiness_is_always_announced_and_failure_only_when_automatic() {
    let ready = StartOutcome::Ready(BackendInfo::ready(8502));
    let running = StartOutcome::AlreadyRunning(BackendInfo::running(8502));
    let failed = StartOutcome::Failed(StartError::PortExhausted { start: 1, end: 2 });
    for automatic in [false, true] {
        assert_eq!(announcement(&ready, automatic), Some(Broadcast::Ready(BackendInfo::ready(8502))));
        assert_eq!(announcement(&running, automatic), None);
    }
    assert_eq!(announcement(&failed, false), None);
    assert_eq!(
        announcement(&failed, true),
        Some(Broadcast::Error("No available port between 1 and 2".to_string()))
    );
    assert_eq!(Broadcast::Ready(BackendInfo::ready(1)).event_name(), "backend-ready");
    assert_eq!(Broadcast::Error(String::new()).event_name(), "backend-error");
}

#[test]
fn commands_hand_back_report_or_failure_text() {
    assert_eq!(
        command_result(StartOutcome::Ready(BackendInfo::ready(8502))),
        Ok(BackendInfo::ready(8502))
    );
    assert_eq!(
        command_result(StartOutcome::AlreadyRunning(BackendInfo::running(8502))),
        Ok(BackendInfo::running(8502))
    );
    assert_eq!(
        command_result(StartOutcome::Failed(StartError::SpawnFailure { reason: "x".to_string() })),
        Err("Failed to start Python backend: x".to_string())
    );
}
