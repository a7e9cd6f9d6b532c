//! Tunable constants of the supervisor.

use vstd::prelude::*;

verus! {

/// First port of the default candidate range.
pub const DEFAULT_PORT_START: u16 = 8000;

/// Last port of the default candidate range (the range is closed).
pub const DEFAULT_PORT_END: u16 = 8100;

/// Default ceiling, in milliseconds, on the time spent waiting for readiness.
pub const DEFAULT_STARTUP_TIMEOUT_MS: u64 = 30000;

/// Default spacing, in milliseconds, between two health probes.
pub const DEFAULT_POLL_INTERVAL_MS: u64 = 500;

/// Default wait, in milliseconds, between the graceful signal and the forced kill.
pub const DEFAULT_GRACE_PERIOD_MS: u64 = 500;

/// Default delay, in milliseconds, between application setup and the automatic start.
pub const DEFAULT_AUTO_START_DELAY_MS: u64 = 1000;

/// Number of captured standard-error lines that an early-exit report keeps.
pub const STDERR_EXCERPT_LINES: usize = 10;

/// The operating-system family the supervisor runs on, as far as
/// process termination and interpreter names are concerned.
#[derive(Clone, Copy, Debug, PartialEq, Eq, Structural)]
pub enum Platform {
    /// Graceful termination signals exist; the system interpreter is `python3`.
    Posix,
    /// Only forced termination; the system interpreter is `python`.
    Windows,
}

/// Timing and port-range settings of one supervisor.
#[derive(Clone, Copy, Debug, PartialEq, Eq, Structural)]
pub struct SupervisorConfig {
    /// First candidate port.
    pub port_start: u16,
    /// Last candidate port; the range is empty when it lies below `port_start`.
    pub port_end: u16,
    /// Ceiling on the readiness wait, in milliseconds.
    pub startup_timeout_ms: u64,
    /// Spacing between health probes, in milliseconds.
    pub poll_interval_ms: u64,
    /// Wait between graceful signal and forced kill, in milliseconds.
    pub grace_period_ms: u64,
    /// Delay before the automatic start at application setup, in milliseconds.
    pub auto_start_delay_ms: u64,
}

impl SupervisorConfig {
    /// The settings made of the default constants.
    pub open spec fn spec_standard() -> SupervisorConfig {
        SupervisorConfig {
            port_start: DEFAULT_PORT_START,
            port_end: DEFAULT_PORT_END,
            startup_timeout_ms: DEFAULT_STARTUP_TIMEOUT_MS,
            poll_interval_ms: DEFAULT_POLL_INTERVAL_MS,
            grace_period_ms: DEFAULT_GRACE_PERIOD_MS,
            auto_start_delay_ms: DEFAULT_AUTO_START_DELAY_MS,
        }
    }

    /// How many candidate ports the settings offer.
    pub open spec fn port_count(self) -> nat {
        if self.port_start <= self.port_end {
            (self.port_end - self.port_start + 1) as nat
        } else {
            0
        }
    }

    /// The default settings: a range of one hundred and one ports and the
    /// default timings.
    pub fn standard() -> (config: SupervisorConfig)
        ensures
            config == Self::spec_standard(),
            config.port_count() == 101,
    {
        SupervisorConfig {
            port_start: DEFAULT_PORT_START,
            port_end: DEFAULT_PORT_END,
            startup_timeout_ms: DEFAULT_STARTUP_TIMEOUT_MS,
            poll_interval_ms: DEFAULT_POLL_INTERVAL_MS,
            grace_period_ms: DEFAULT_GRACE_PERIOD_MS,
            auto_start_delay_ms: DEFAULT_AUTO_START_DELAY_MS,
        }
    }

    /// The same settings with another port range.
    pub fn with_port_range(self, port_start: u16, port_end: u16) -> (config: SupervisorConfig)
        ensures
            config == (SupervisorConfig { port_start, port_end, ..self }),
    {
        SupervisorConfig { port_start, port_end, ..self }
    }

    /// The same settings with other timings for the readiness wait.
    pub fn with_startup_timing(self, startup_timeout_ms: u64, poll_interval_ms: u64) -> (config:
        SupervisorConfig)
        ensures
            config == (SupervisorConfig { startup_timeout_ms, poll_interval_ms, ..self }),
    {
        SupervisorConfig { startup_timeout_ms, poll_interval_ms, ..self }
    }
}

impl Default for SupervisorConfig {
    fn default() -> (config: SupervisorConfig)
        ensures
            config == SupervisorConfig::spec_standard(),
    {
        SupervisorConfig::standard()
    }
}

} // verus!
