use backend_supervisor::config::{
    BuildMode, BACKEND_CONNECT_RECHECK_TIMEOUT_MS, BACKEND_CONNECT_TIMEOUT_MS,
    BACKEND_STARTUP_POLL_INTERVAL_MS, BACKEND_STARTUP_SETTLE_MS, BACKEND_STARTUP_WAIT_TIMEOUT_MS,
    SPLASH_FAILSAFE_TIMEOUT_MS,
};
use backend_supervisor::error::{StartupError, StartupErrorKind};
use backend_supervisor::probe::BackendProbeState;
use backend_supervisor::readiness::{
    after_pause, after_poll, after_probe, wait_for_backend_ready, WaitStep,
};
use backend_supervisor::termination::ExitPoll;

fn step_of(outcome: Result<WaitStep, StartupError>) -> WaitStep {
    match outcome {
        Ok(step) => step,
        Err(error) => panic!("failed: {}", error.message),
    }
}

fn error_of(outcome: Result<WaitStep, StartupError>) -> StartupError {
    match outcome {
        Ok(step) => panic!("goes on with {:?}", step),
        Err(error) => error,
    }
}

#[test]
fn time_budgets() {
    assert_eq!(BACKEND_CONNECT_TIMEOUT_MS, 900);
    assert_eq!(BACKEND_CONNECT_RECHECK_TIMEOUT_MS, 1500);
    assert_eq!(BACKEND_STARTUP_WAIT_TIMEOUT_MS, 18000);
    assert_eq!(BACKEND_STARTUP_POLL_INTERVAL_MS, 180);
    assert_eq!(BACKEND_STARTUP_SETTLE_MS, 120);
    assert_eq!(SPLASH_FAILSAFE_TIMEOUT_MS, 45000);
}

#[test]
fn wait_begins_with_a_probe() {
    assert_eq!(step_of(wait_for_backend_ready("127.0.0.1", 5055, 18000)), WaitStep::Probe);
    assert_eq!(step_of(wait_for_backend_ready("127.0.0.1", 5055, 1)), WaitStep::Probe);
}

#[test]
fn wait_without_time_fails_at_once() {
    let error = error_of(wait_for_backend_ready("127.0.0.1", 5055, 0));
    assert_eq!(error.kind, StartupErrorKind::HealthTimeout);
    assert_eq!(error.message, "backend did not open 127.0.0.1:5055 within 0s");
}

#[test]
fn healthy_probe_ends_the_wait() {
    assert_eq!(step_of(after_probe("h", 1, BackendProbeState::Healthy)), WaitStep::Ready);
}

#[test]
fn unreachable_port_leads_to_the_process() {
    assert_eq!(step_of(after_probe("h", 1, BackendProbeState::Unreachable)), WaitStep::PollChild);
}

#[test]
fn foreign_service_fails_the_wait_at_once() {
    let error = error_of(after_probe("127.0.0.1", 5060, BackendProbeState::OccupiedByOtherService));
    assert_eq!(error.kind, StartupErrorKind::PortOccupied);
    assert_eq!(
        error.message,
        "port 127.0.0.1:5060 is occupied by another service (not Ancia backend)"
    );
}

#[test]
fn live_process_leads_to_a_pause() {
    assert_eq!(step_of(after_poll(&ExitPoll::Running, BuildMode::Development)), WaitStep::Pause);
    assert_eq!(step_of(after_poll(&ExitPoll::Failed, BuildMode::Production)), WaitStep::Pause);
}

#[test]
fn exit_fails_the_wait_with_the_status_and_a_hint_in_development() {
    let poll = ExitPoll::Exited { status: "exit status: 1".to_string() };
    let error = error_of(after_poll(&poll, BuildMode::Development));
    assert_eq!(error.kind, StartupErrorKind::ProcessDiedEarly);
    assert_eq!(
        error.message,
        "backend exited immediately with status exit status: 1 (подсказка: активируй venv и установи `pip install -r requirements.txt`)"
    );
}

#[test]
fn exit_fails_the_wait_without_hint_in_production() {
    let poll = ExitPoll::Exited { status: "signal: 9 (SIGKILL)".to_string() };
    let error = error_of(after_poll(&poll, BuildMode::Production));
    assert_eq!(error.kind, StartupErrorKind::ProcessDiedEarly);
    assert_eq!(error.message, "backend exited immediately with status signal: 9 (SIGKILL)");
}

#[test]
fn wait_goes_on_while_time_is_left() {
    assert_eq!(step_of(after_pause("h", 1, 18000, 0)), WaitStep::Probe);
    assert_eq!(step_of(after_pause("h", 1, 18000, 17999)), WaitStep::Probe);
}

#[test]
fn wait_times_out_when_the_budget_is_used_up() {
    let error = error_of(after_pause("127.0.0.1", 5055, 18000, 18000));
    assert_eq!(error.kind, StartupErrorKind::HealthTimeout);
    assert_eq!(error.message, "backend did not open 127.0.0.1:5055 within 18s");
    let error = error_of(after_pause("h", 80, 1999, u64::MAX));
    assert_eq!(error.message, "backend did not open h:80 within 1s");
    let error = error_of(after_pause("h", 80, 999, 1000));
    assert_eq!(error.message, "backend did not open h:80 within 0s");
}

#[test]
fn error_messages_of_each_kind() {
    let error = StartupError::port_exhausted();
    assert_eq!(error.kind, StartupErrorKind::PortExhausted);
    assert_eq!(
        error.message,
        "Не удалось найти свободный порт для backend в диапазоне 5055-5072."
    );
    let error = StartupError::unhealthy("http://127.0.0.1:5055");
    assert_eq!(error.kind, StartupErrorKind::Unhealthy);
    assert_eq!(
        error.message,
        "backend process is alive but does not pass health check on http://127.0.0.1:5055"
    );
    let error = StartupError::already_running();
    assert_eq!(error.kind, StartupErrorKind::AlreadyRunning);
    assert_eq!(error.message, "Невозможно запустить backend: процесс уже выполняется.");
    let error = StartupError::exited_during_startup("exit status: 3");
    assert_eq!(error.kind, StartupErrorKind::ProcessDiedEarly);
    assert_eq!(error.message, "backend exited during startup with status exit status: 3");
    let error = StartupError::spawn_failed("boom".to_string());
    assert_eq!(error.kind, StartupErrorKind::SpawnFailed);
    assert_eq!(error.message, "boom");
    let copy = error.clone();
    assert_eq!(copy.kind, error.kind);
    assert_eq!(copy.message, error.message);
}
