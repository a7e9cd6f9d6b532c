//! What holds of the supervisor across its operations.
//!
//! Each law here is stated over the decisions that the executable
//! functions are proved to take, so it holds of every run of them.

use vstd::prelude::*;
use crate::config::{Platform, SupervisorConfig};
use crate::error::{
    law_early_exit_message_shows_code,
    law_path_resolution_message_names_paths,
    StartErrorView,
};
use crate::info::{BackendInfo, BackendStatus};
use crate::paths::{backend_dir_of, first_existing, is_first_existing, none_exists};
use crate::start::{
    elapsed_ms,
    stderr_excerpt,
    timed_out,
    StartEventView,
    StartNext,
    StartOutcomeView,
    StartRequestView,
    StartSessionView,
    StartStage,
    StartTransition,
};
use crate::stop::{
    stop_entry,
    stop_state,
    StopEvent,
    StopNext,
    StopReport,
    StopRequestView,
    StopSessionView,
    StopStage,
};
use crate::supervisor::{status_entry, StatusStep, SupervisorState};
use crate::text::{occurs_in, signed_decimal};

verus! {

/// Whatever a start decides, the record stays consistent: a child
/// and its port are recorded together and cleared together.
pub proof fn law_decisions_keep_record_consistent(
    session: StartSessionView,
    state: SupervisorState,
    event: StartEventView,
    now: u64,
)
    requires
        state.consistent(),
    ensures
        session.decide(state, event, now).state.consistent(),
        session.enter(state).state.consistent(),
{
}

/// A start that finds none of its candidate directories on disk fails
/// at that decision, before anything is spawned. The failure lists
/// every candidate, its message names each of them, and the record is
/// only relieved of the start slot.
pub proof fn law_missing_backend_fails_start(
    session: StartSessionView,
    state: SupervisorState,
    port: u16,
    exists: Seq<bool>,
    now: u64,
    named: int,
)
    requires
        session.stage == (StartStage::LocatingBackend { port }),
        none_exists(exists, session.dirs().len() as int),
        0 <= named < session.dirs().len(),
    ensures
        ({
            let error = StartErrorView::PathResolution { tried: session.dirs() };
            &&& session.decide(state, StartEventView::DirsProbed { exists }, now)
                == (StartTransition {
                next: StartNext::Done(StartOutcomeView::Failed(error)),
                state: state.released(),
            })
            &&& occurs_in(session.dirs()[named], error.message_text())
        }),
{
    let count = session.dirs().len() as int;
    assert forall|index: int| !is_first_existing(exists, count, index) by {
        if is_first_existing(exists, count, index) {
            assert(exists[index]);
        }
    }
    law_path_resolution_message_names_paths(session.dirs(), named);
}

/// A start locates the backend exactly as the resolution of the
/// backend directory does. Where the resolution fails, the start fails
/// with the same failure, and only then. Where it succeeds, the start
/// goes on with the candidate whose path the resolution gives, and
/// leaves the record as it is.
pub proof fn law_start_locates_backend_as_resolved(
    session: StartSessionView,
    state: SupervisorState,
    port: u16,
    exists: Seq<bool>,
    now: u64,
)
    requires
        session.stage == (StartStage::LocatingBackend { port }),
    ensures
        ({
            let decision = session.decide(state, StartEventView::DirsProbed { exists }, now);
            match backend_dir_of(session.context.layout, exists) {
                Err(error) => decision == session.fail(state, error),
                Ok(path) => {
                    &&& decision.state == state
                    &&& decision.next matches StartNext::Stage(
                        StartStage::InspectingBackend { port: kept, dir },
                    )
                    &&& kept == port
                    &&& dir < session.dirs().len()
                    &&& session.dirs()[dir as int] == path
                },
            }
        }),
{
    let count = session.dirs().len() as int;
    assert(count <= 2);
    if exists|index: int| is_first_existing(exists, count, index) {
        let index = choose|index: int| is_first_existing(exists, count, index);
        assert(first_existing(exists, count) == Some(index));
        assert(index as usize == index);
    }
}

/// A start that ends with a ready backend leaves that backend
/// recorded, on the port it reports, and the start slot free.
pub proof fn law_ready_start_leaves_backend_recorded(
    session: StartSessionView,
    state: SupervisorState,
    event: StartEventView,
    now: u64,
    info: BackendInfo,
)
    requires
        session.decide(state, event, now).next == StartNext::Done(StartOutcomeView::Ready(info)),
    ensures
        info.status == BackendStatus::Ready,
        session.decide(state, event, now).state.process is Some,
        session.decide(state, event, now).state.port == info.port,
        info.port is Some,
        !session.decide(state, event, now).state.starting,
{
}

/// The decision that ends the port scan of a start which stands at
/// `candidate`, when exactly the ports in `busy` refuse to bind.
pub open spec fn port_scan(
    session: StartSessionView,
    state: SupervisorState,
    candidate: u16,
    busy: Set<u16>,
    now: u64,
) -> StartTransition
    decreases
        if candidate <= session.config.port_end {
            session.config.port_end - candidate
        } else {
            0
        },
{
    let decision = session.at(StartStage::ScanningPorts { candidate }).decide(
        state,
        StartEventView::BindTried { bound: !busy.contains(candidate) },
        now,
    );
    match decision.next {
        StartNext::Stage(StartStage::ScanningPorts { candidate: next }) => if candidate < next
            <= session.config.port_end {
            port_scan(session, decision.state, next, busy, now)
        } else {
            decision
        },
        _ => decision,
    }
}

/// The port scan of a start chooses the port that a scan of the
/// session's range owes: it goes on with the lowest candidate that is
/// not busy, and fails the start when every candidate is busy. The
/// record is not touched while the scan goes on.
pub proof fn law_start_scans_for_first_free_port(
    session: StartSessionView,
    state: SupervisorState,
    candidate: u16,
    busy: Set<u16>,
    now: u64,
)
    requires
        session.range().contains(candidate),
    ensures
        port_scan(session, state, candidate, busy, now) == match session.range().scan_from(
            Some(candidate),
            busy,
        ) {
            Some(port) => StartTransition {
                next: StartNext::Stage(StartStage::LocatingBackend { port }),
                state,
            },
            None => session.fail(state, session.ports_exhausted()),
        },
    decreases session.config.port_end - candidate,
{
    if busy.contains(candidate) && candidate < session.config.port_end {
        law_start_scans_for_first_free_port(session, state, (candidate + 1) as u16, busy, now);
    }
}

/// A start on a supervisor that records a backend which answers spawns
/// nothing. Its one request is a probe of the recorded port; on a
/// healthy answer it ends at once, reports `running` with that port,
/// and leaves the record as it found it.
pub proof fn law_start_of_healthy_backend_spawns_nothing(
    session: StartSessionView,
    pid: u32,
    port: u16,
    now: u64,
)
    requires
        session.stage == StartStage::AwaitingTurn,
    ensures
        ({
            let state = SupervisorState { process: Some(pid), port: Some(port), starting: false };
            let first = session.enter(state);
            let probing = session.at(StartStage::ProbingExisting { port });
            let second = probing.decide(
                first.state,
                StartEventView::HealthProbed { healthy: true },
                now,
            );
            &&& first.next == StartNext::Stage(StartStage::ProbingExisting { port })
            &&& probing.request() == StartRequestView::ProbeHealth { port }
            &&& second.next == StartNext::Done(
                StartOutcomeView::AlreadyRunning(
                    BackendInfo { status: BackendStatus::Running, port: Some(port) },
                ),
            )
            &&& second.state == state
        }),
{
}

/// While one start holds the start slot, another start does nothing
/// but sleep and look again: it changes no record and asks for no
/// probe, bind or spawn.
pub proof fn law_busy_slot_makes_start_wait(session: StartSessionView, state: SupervisorState)
    requires
        state.starting,
    ensures
        session.enter(state).next == StartNext::Stage(StartStage::AwaitingTurn),
        session.enter(state).state == state,
        session.at(StartStage::AwaitingTurn).request() == (StartRequestView::Sleep {
            millis: session.config.poll_interval_ms,
        }),
{
}

/// Only a session that waits for a spawn asks for one, and such a
/// session holds the start slot.
pub proof fn law_spawn_is_asked_at_one_stage(session: StartSessionView)
    requires
        session.request() is Spawn,
    ensures
        session.stage is Spawning,
        session.holds_slot(),
{
}

/// A child that is found exited while the start waits for it fails the
/// start at that very decision, whatever the clock reads. The failure
/// carries the child's exit code and the first lines of its standard
/// error, its message shows the exit code, the start slot is freed, and
/// if the child was still recorded, the record is cleared.
pub proof fn law_child_exit_fails_start(
    session: StartSessionView,
    state: SupervisorState,
    port: u16,
    pid: u32,
    since: u64,
    now: u64,
    code: i32,
    stderr: Seq<Seq<char>>,
)
    requires
        session.stage == (StartStage::CheckingChild { port, pid, since }),
    ensures
        ({
            let decision = session.decide(
                state,
                StartEventView::ChildExited { code: Some(code), stderr },
                now,
            );
            let error = StartErrorView::EarlyExit {
                code: Some(code),
                stderr: stderr_excerpt(stderr),
            };
            &&& decision.next == StartNext::Done(StartOutcomeView::Failed(error))
            &&& occurs_in(signed_decimal(code as int), error.message_text())
            &&& stderr_excerpt(stderr).len() <= 10
            &&& !decision.state.starting
            &&& state.records(pid, port) ==> decision.state.stopped()
        }),
{
    law_early_exit_message_shows_code(code, stderr_excerpt(stderr));
}

/// Between two looks at the child lies exactly one sleep, of one poll
/// interval: after a look that found the child alive the start sleeps
/// that long, then probes, and on an unhealthy answer looks again. So a
/// child's exit is noticed within one poll interval, and the time the
/// probe takes.
pub proof fn law_one_sleep_between_child_checks(
    session: StartSessionView,
    state: SupervisorState,
    port: u16,
    pid: u32,
    since: u64,
    checked_at: u64,
    woke_at: u64,
    probed_at: u64,
)
    requires
        state.records(pid, port),
        !timed_out(session.config, since, checked_at),
        !timed_out(session.config, since, woke_at),
    ensures
        ({
            let checking = session.at(StartStage::CheckingChild { port, pid, since });
            let sleeping = session.at(StartStage::Sleeping { port, pid, since });
            let probing = session.at(StartStage::Probing { port, pid, since });
            &&& checking.decide(state, StartEventView::ChildRunning, checked_at)
                == (StartTransition { next: StartNext::Stage(sleeping.stage), state })
            &&& sleeping.request() == (StartRequestView::Sleep {
                millis: session.config.poll_interval_ms,
            })
            &&& sleeping.decide(state, StartEventView::Waited, woke_at) == (StartTransition {
                next: StartNext::Stage(probing.stage),
                state,
            })
            &&& probing.request() == StartRequestView::ProbeHealth { port }
            &&& probing.decide(state, StartEventView::HealthProbed { healthy: false }, probed_at)
                == (StartTransition { next: StartNext::Stage(checking.stage), state })
            &&& checking.request() == StartRequestView::CheckChild { pid }
        }),
{
}

/// Once the startup timeout has elapsed, the next decision of the
/// polling loop that could prolong the wait ends the start with a
/// timeout instead. The child stays recorded and running.
pub proof fn law_elapsed_timeout_ends_start(
    session: StartSessionView,
    state: SupervisorState,
    port: u16,
    pid: u32,
    since: u64,
    now: u64,
)
    requires
        state.records(pid, port),
        timed_out(session.config, since, now),
    ensures
        ({
            let timeout = StartTransition {
                next: StartNext::Done(
                    StartOutcomeView::Failed(
                        StartErrorView::StartupTimeout {
                            port,
                            timeout_ms: session.config.startup_timeout_ms,
                        },
                    ),
                ),
                state: state.released(),
            };
            let checking = session.at(StartStage::CheckingChild { port, pid, since });
            let sleeping = session.at(StartStage::Sleeping { port, pid, since });
            &&& checking.decide(state, StartEventView::ChildRunning, now) == timeout
            &&& checking.decide(state, StartEventView::ChildUnknown, now) == timeout
            &&& sleeping.decide(state, StartEventView::Waited, now) == timeout
            &&& timeout.state.records(pid, port)
        }),
{
}

/// The polling loop sleeps only while the startup timeout has not
/// elapsed, and then for one poll interval. A sleep that lasts as
/// long as it was asked to therefore ends, by the clock, before the
/// timeout plus one poll interval have passed since the wait began.
pub proof fn law_sleep_begins_before_timeout(
    session: StartSessionView,
    state: SupervisorState,
    event: StartEventView,
    now: u64,
    port: u16,
    pid: u32,
    since: u64,
)
    requires
        session.stage != (StartStage::Sleeping { port, pid, since }),
        session.decide(state, event, now).next == StartNext::Stage(
            StartStage::Sleeping { port, pid, since },
        ),
    ensures
        session.stage == (StartStage::CheckingChild { port, pid, since }),
        elapsed_ms(since, now) < session.config.startup_timeout_ms,
        session.at(StartStage::Sleeping { port, pid, since }).request() == (StartRequestView::Sleep {
            millis: session.config.poll_interval_ms,
        }),
        since <= now ==> now + session.config.poll_interval_ms < since
            + session.config.startup_timeout_ms + session.config.poll_interval_ms,
{
}

/// The readings of the clock in one round of the polling loop.
pub struct PollRound {
    /// The reading at which the unhealthy answer of the probe is reported.
    pub probed_at: u64,
    /// The reading at which the child is reported alive.
    pub checked_at: u64,
    /// The reading at which the end of the sleep is reported.
    pub woke_at: u64,
}

/// Whether `rounds` are timed as a caller with a monotonic clock times
/// them, when the probe of the first round was asked for at `asked_at`.
/// The clock never goes back. A probe and the look at the child that
/// follows take at most `slack` milliseconds together. A sleep lasts at
/// least the poll interval, and at most `slack` milliseconds longer.
pub open spec fn well_timed(
    config: SupervisorConfig,
    asked_at: u64,
    rounds: Seq<PollRound>,
    slack: nat,
) -> bool
    decreases rounds.len(),
{
    rounds.len() == 0 || {
        let round = rounds[0];
        &&& asked_at <= round.probed_at <= round.checked_at <= asked_at + slack
        &&& round.checked_at + config.poll_interval_ms <= round.woke_at <= round.checked_at
            + config.poll_interval_ms + slack
        &&& well_timed(config, round.woke_at, rounds.drop_first(), slack)
    }
}

/// Where a run of the polling loop stands: its last decision, the
/// reading of the clock at which that was taken, and the number of
/// probes asked for so far.
pub struct PollingRun {
    pub decision: StartTransition,
    pub at: u64,
    pub probes: nat,
}

/// The run of the polling loop on a backend that never answers and
/// whose child never exits, with the clock reading as `rounds` say. The
/// wait began at `since`; a probe was asked for at `asked_at` and is
/// outstanding. Each round reports an unhealthy answer, a child that is
/// alive, and the end of a sleep. The run stops at the first decision
/// that ends the start, or when the rounds are used up.
pub open spec fn unanswered_run(
    session: StartSessionView,
    state: SupervisorState,
    port: u16,
    pid: u32,
    since: u64,
    asked_at: u64,
    rounds: Seq<PollRound>,
) -> PollingRun
    decreases rounds.len(),
{
    let probing = session.at(StartStage::Probing { port, pid, since });
    let checking = session.at(StartStage::CheckingChild { port, pid, since });
    let sleeping = session.at(StartStage::Sleeping { port, pid, since });
    if rounds.len() == 0 {
        PollingRun {
            decision: StartTransition { next: StartNext::Stage(probing.stage), state },
            at: asked_at,
            probes: 1,
        }
    } else {
        let round = rounds[0];
        let probed = probing.decide(
            state,
            StartEventView::HealthProbed { healthy: false },
            round.probed_at,
        );
        let checked = checking.decide(probed.state, StartEventView::ChildRunning, round.checked_at);
        let woken = sleeping.decide(checked.state, StartEventView::Waited, round.woke_at);
        if probed.next != StartNext::Stage(checking.stage) {
            PollingRun { decision: probed, at: round.probed_at, probes: 1 }
        } else if checked.next != StartNext::Stage(sleeping.stage) {
            PollingRun { decision: checked, at: round.checked_at, probes: 1 }
        } else if woken.next != StartNext::Stage(probing.stage) {
            PollingRun { decision: woken, at: round.woke_at, probes: 1 }
        } else {
            let rest = unanswered_run(
                session,
                woken.state,
                port,
                pid,
                since,
                round.woke_at,
                rounds.drop_first(),
            );
            PollingRun { probes: rest.probes + 1, ..rest }
        }
    }
}

/// The run of a start from the moment its port hint is written, at
/// `written_at`, on a backend that never answers and whose child never
/// exits. The wait begins at that moment, with the first probe.
pub open spec fn unanswered_start(
    session: StartSessionView,
    state: SupervisorState,
    port: u16,
    pid: u32,
    written_at: u64,
    rounds: Seq<PollRound>,
) -> PollingRun {
    let written = session.at(StartStage::WritingHint { port, pid }).decide(
        state,
        StartEventView::HintWritten,
        written_at,
    );
    if written.next == StartNext::Stage(StartStage::Probing { port, pid, since: written_at }) {
        unanswered_run(session, written.state, port, pid, written_at, written_at, rounds)
    } else {
        PollingRun { decision: written, at: written_at, probes: 0 }
    }
}

/// The decision that ends a start with a timeout on `port`: the
/// failure, the start slot freed, the child still recorded.
pub open spec fn timeout_decision(session: StartSessionView, state: SupervisorState, port: u16)
    -> StartTransition {
    session.fail(state, session.startup_timeout(port))
}

/// However the clock reads, a run of the polling loop on a backend
/// that never answers is bounded, in time and in probes.
///
/// If the run has ended, it ended with a timeout, not before the
/// startup timeout had elapsed and less than one poll interval and the
/// caller's slack after it, and the child is still recorded. If the
/// rounds were used up first, the timeout has not elapsed and the run
/// waits for the next probe. Either way, every probe but the first was
/// asked for a full poll interval after the one before, all of them
/// before the timeout had elapsed.
pub proof fn law_unanswered_polling_is_bounded(
    session: StartSessionView,
    state: SupervisorState,
    port: u16,
    pid: u32,
    since: u64,
    asked_at: u64,
    rounds: Seq<PollRound>,
    slack: nat,
)
    requires
        state.records(pid, port),
        since <= asked_at,
        !timed_out(session.config, since, asked_at),
        well_timed(session.config, asked_at, rounds, slack),
    ensures
        ({
            let run = unanswered_run(session, state, port, pid, since, asked_at, rounds);
            let timeout = session.config.startup_timeout_ms;
            let interval = session.config.poll_interval_ms;
            &&& 1 <= run.probes <= rounds.len() + 1
            &&& asked_at + (run.probes - 1) * interval < since + timeout
            &&& match run.decision.next {
                StartNext::Done(_) => {
                    &&& run.decision == timeout_decision(session, state, port)
                    &&& run.decision.state.records(pid, port)
                    &&& since + timeout <= run.at < since + timeout + interval + slack
                },
                StartNext::Stage(stage) => {
                    &&& stage == (StartStage::Probing { port, pid, since })
                    &&& run.decision.state == state
                    &&& run.probes == rounds.len() + 1
                    &&& asked_at + rounds.len() * interval <= run.at < since + timeout
                },
            }
        }),
    decreases rounds.len(),
{
    let interval = session.config.poll_interval_ms as int;
    if rounds.len() > 0 {
        let round = rounds[0];
        if !timed_out(session.config, since, round.checked_at) && !timed_out(
            session.config,
            since,
            round.woke_at,
        ) {
            let rest = rounds.drop_first();
            law_unanswered_polling_is_bounded(
                session,
                state,
                port,
                pid,
                since,
                round.woke_at,
                rest,
                slack,
            );
            let tail = unanswered_run(session, state, port, pid, since, round.woke_at, rest);
            assert((tail.probes - 1) * interval + interval == tail.probes * interval)
                by (nonlinear_arith);
            assert(rest.len() * interval + interval == rounds.len() * interval)
                by (nonlinear_arith)
                requires
                    rest.len() + 1 == rounds.len(),
            ;
        }
    }
}

/// A start whose backend never answers, and whose child neither exits
/// nor is taken away, ends with a timeout once the caller has gone
/// through enough rounds, however the clock reads. It ends not before
/// the startup timeout has elapsed since the port hint was written, and
/// less than one poll interval and the caller's slack after it. It
/// asks for no more probes than poll intervals fit into the timeout,
/// and one. The child stays recorded.
pub proof fn law_unanswered_start_times_out(
    session: StartSessionView,
    state: SupervisorState,
    port: u16,
    pid: u32,
    written_at: u64,
    rounds: Seq<PollRound>,
    slack: nat,
)
    requires
        state.records(pid, port),
        session.config.poll_interval_ms > 0,
        well_timed(session.config, written_at, rounds, slack),
        rounds.len() * session.config.poll_interval_ms >= session.config.startup_timeout_ms,
    ensures
        ({
            let run = unanswered_start(session, state, port, pid, written_at, rounds);
            let timeout = session.config.startup_timeout_ms;
            let interval = session.config.poll_interval_ms;
            &&& run.decision == timeout_decision(session, state, port)
            &&& run.decision.state.records(pid, port)
            &&& written_at + timeout <= run.at < written_at + timeout + interval + slack
            &&& run.probes <= timeout / interval + 1
        }),
{
    let timeout = session.config.startup_timeout_ms as int;
    let interval = session.config.poll_interval_ms as int;
    if timeout > 0 {
        law_unanswered_polling_is_bounded(
            session,
            state,
            port,
            pid,
            written_at,
            written_at,
            rounds,
            slack,
        );
        let run = unanswered_run(session, state, port, pid, written_at, written_at, rounds);
        let earlier = run.probes - 1;
        let quotient = timeout / interval;
        vstd::arithmetic::div_mod::lemma_fundamental_div_mod(timeout, interval);
        assert(earlier <= quotient) by (nonlinear_arith)
            requires
                earlier * interval < timeout,
                timeout == interval * quotient + timeout % interval,
                0 <= timeout % interval < interval,
                interval > 0,
        ;
    }
}

/// A stop leaves no child and no port in the record, keeps the record
/// consistent, and does the same when it is made again: after the
/// first stop, any further stop changes nothing.
pub proof fn law_stop_is_idempotent(state: SupervisorState)
    ensures
        stop_state(state).stopped(),
        stop_state(state).consistent(),
        stop_state(state).port is None,
        stop_state(stop_state(state)) == stop_state(state),
{
}

/// A stop on a supervisor that records no child has nothing to
/// terminate: it changes no record, its only request is the removal of
/// the port hint, and it then ends, reporting that nothing ran.
pub proof fn law_stop_without_child_is_trivial(
    session: StopSessionView,
    state: SupervisorState,
    platform: Platform,
)
    requires
        state.stopped(),
        session.stage == stop_entry(state, platform),
    ensures
        stop_state(state) == state,
        session.stage == (StopStage::RemovingHint { was_running: false }),
        session.request() == (StopRequestView::RemoveHint { path: session.hint_path }),
        session.decide(StopEvent::HintRemoved) == StopNext::Done(
            StopReport { was_running: false },
        ),
{
}

/// No stop ends before it has asked for the removal of the port hint:
/// the last decision of every stop is taken on the report of that
/// removal.
pub proof fn law_stop_ends_on_hint_removal(session: StopSessionView, event: StopEvent)
    requires
        session.decide(event) is Done,
    ensures
        session.stage is RemovingHint,
        session.request() == (StopRequestView::RemoveHint { path: session.hint_path }),
        event == StopEvent::HintRemoved,
{
}

/// A stop on a platform with a graceful signal kills only a child that
/// outlived the signal and the grace period: it signals, sleeps for
/// the grace period, looks at the child, and asks for the kill only if
/// the child has not exited.
pub proof fn law_graceful_stop_kills_last(session: StopSessionView, pid: u32)
    requires
        session.stage == (StopStage::Signalling { pid }),
    ensures
        ({
            let gracing = session.at(StopStage::Gracing { pid });
            let checking = session.at(StopStage::Checking { pid });
            &&& session.request() == StopRequestView::Terminate { pid }
            &&& session.decide(StopEvent::Signalled) == StopNext::Stage(gracing.stage)
            &&& gracing.request() == StopRequestView::Sleep { millis: session.grace_period_ms }
            &&& gracing.decide(StopEvent::Waited) == StopNext::Stage(checking.stage)
            &&& checking.request() == StopRequestView::CheckChild { pid }
            &&& checking.decide(StopEvent::ChildExited) == StopNext::Stage(
                StopStage::RemovingHint { was_running: true },
            )
            &&& checking.decide(StopEvent::ChildRunning) == StopNext::Stage(
                StopStage::Killing { pid },
            )
        }),
{
}

/// After a stop, a status check reports `stopped` without probing
/// anything.
pub proof fn law_status_after_stop_is_stopped(state: SupervisorState)
    ensures
        status_entry(stop_state(state)) == StatusStep::Report(
            BackendInfo { status: BackendStatus::Stopped, port: None },
        ),
{
}

} // verus!
