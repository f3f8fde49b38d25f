//! Waiting for a freshly spawned backend to become healthy.
//!
//! One round of the wait probes the port, asks the process whether it has
//! exited, and pauses. Each function here takes the outcome of one of these
//! and says how the wait goes on, or with which error it ends.

use vstd::prelude::*;
use vstd::string::*;
use crate::error::{StartupError, StartupErrorView, StartupErrorKind, port_occupied_text,
    exited_immediately_text, health_timeout_text};
use crate::config::BuildMode;
use crate::probe::BackendProbeState;
use crate::termination::ExitPoll;

verus! {

/// What the wait does next.
#[derive(Clone, Copy, Debug, PartialEq, Eq, Structural)]
pub enum WaitStep {
    /// Probe the port with the ordinary timeout.
    Probe,
    /// Ask the process, without waiting, whether it has exited.
    PollChild,
    /// Pause for the poll interval, then say how long the wait has lasted.
    Pause,
    /// The backend is healthy: the wait is over.
    Ready,
}

/// How the wait goes on, as plain values.
pub open spec fn wait_view(step: Result<WaitStep, StartupError>) -> Result<
    WaitStep,
    StartupErrorView,
> {
    match step {
        Ok(step) => Ok(step),
        Err(error) => Err(error@),
    }
}

/// How a wait goes on after `elapsed_ms` of its `timeout_ms`: with a probe
/// while time is left, else with the error of a timeout.
pub open spec fn wait_after_pause(
    host: Seq<char>,
    port: u16,
    timeout_ms: u64,
    elapsed_ms: u64,
) -> Result<WaitStep, StartupErrorView> {
    if elapsed_ms < timeout_ms {
        Ok(WaitStep::Probe)
    } else {
        Err(
            StartupErrorView {
                kind: StartupErrorKind::HealthTimeout,
                message: health_timeout_text(host, port, timeout_ms),
            },
        )
    }
}

/// How a wait goes on after a probe: a healthy backend ends it, a foreign
/// service on the port fails it at once, and where nothing answers the
/// process is asked whether it has exited.
pub open spec fn wait_after_probe(host: Seq<char>, port: u16, found: BackendProbeState) -> Result<
    WaitStep,
    StartupErrorView,
> {
    match found {
        BackendProbeState::Healthy => Ok(WaitStep::Ready),
        BackendProbeState::OccupiedByOtherService => Err(
            StartupErrorView {
                kind: StartupErrorKind::PortOccupied,
                message: port_occupied_text(host, port),
            },
        ),
        BackendProbeState::Unreachable => Ok(WaitStep::PollChild),
    }
}

/// How a wait goes on after the process has answered: a process that has
/// exited fails it at once with the exit status, in development with a hint;
/// otherwise the wait pauses.
pub open spec fn wait_after_poll(poll: ExitPoll, mode: BuildMode) -> Result<
    WaitStep,
    StartupErrorView,
> {
    match poll {
        ExitPoll::Exited { status } => Err(
            StartupErrorView {
                kind: StartupErrorKind::ProcessDiedEarly,
                message: exited_immediately_text(status@, mode == BuildMode::Development),
            },
        ),
        _ => Ok(WaitStep::Pause),
    }
}

/// Begins the wait for the backend at `host` and `port`: with a probe, or,
/// where there is no time at all, with the error of a timeout.
pub fn wait_for_backend_ready(host: &str, port: u16, timeout_ms: u64) -> (step: Result<
    WaitStep,
    StartupError,
>)
    ensures
        wait_view(step) == wait_after_pause(host@, port, timeout_ms, 0),
{
    after_pause(host, port, timeout_ms, 0)
}

/// Goes on after a pause, `elapsed_ms` after the wait began.
pub fn after_pause(host: &str, port: u16, timeout_ms: u64, elapsed_ms: u64) -> (step: Result<
    WaitStep,
    StartupError,
>)
    ensures
        wait_view(step) == wait_after_pause(host@, port, timeout_ms, elapsed_ms),
{
    if elapsed_ms < timeout_ms {
        Ok(WaitStep::Probe)
    } else {
        Err(StartupError::health_timeout(host, port, timeout_ms))
    }
}

/// Goes on after a probe of the port.
pub fn after_probe(host: &str, port: u16, found: BackendProbeState) -> (step: Result<
    WaitStep,
    StartupError,
>)
    ensures
        wait_view(step) == wait_after_probe(host@, port, found),
{
    match found {
        BackendProbeState::Healthy => Ok(WaitStep::Ready),
        BackendProbeState::OccupiedByOtherService => Err(StartupError::port_occupied(host, port)),
        BackendProbeState::Unreachable => Ok(WaitStep::PollChild),
    }
}

/// Goes on after the process has been asked whether it has exited.
pub fn after_poll(poll: &ExitPoll, mode: BuildMode) -> (step: Result<WaitStep, StartupError>)
    ensures
        wait_view(step) == wait_after_poll(*poll, mode),
{
    match poll {
        ExitPoll::Exited { status } => Err(
            StartupError::exited_immediately(status.as_str(), mode == BuildMode::Development),
        ),
        _ => Ok(WaitStep::Pause),
    }
}

/// The wait ends well only on a healthy probe: no other outcome of a probe,
/// of a poll or of a pause makes it ready.
pub proof fn ready_only_when_healthy(
    host: Seq<char>,
    port: u16,
    timeout_ms: u64,
    elapsed_ms: u64,
    found: BackendProbeState,
    poll: ExitPoll,
    mode: BuildMode,
)
    ensures
        wait_after_probe(host, port, found) == Ok::<WaitStep, StartupErrorView>(WaitStep::Ready)
            <==> found == BackendProbeState::Healthy,
        wait_after_poll(poll, mode) != Ok::<WaitStep, StartupErrorView>(WaitStep::Ready),
        wait_after_pause(host, port, timeout_ms, elapsed_ms) != Ok::<WaitStep, StartupErrorView>(
            WaitStep::Ready,
        ),
{
}

} // verus!
