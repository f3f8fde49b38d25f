use backend_supervisor::snapshot::{
    backend_startup_snapshot, backend_status, BackendStartupSnapshot, StartupStatus,
    IDLE_MESSAGE, STOPPED_MESSAGE, UNAVAILABLE_MESSAGE,
};
use backend_supervisor::supervisor::BackendProcessState;
use backend_supervisor::termination::ExitPoll;

fn exited(status: &str) -> ExitPoll {
    ExitPoll::Exited { status: status.to_string() }
}

fn snapshot(status: StartupStatus, message: &str, host: &str, port: u16) -> BackendStartupSnapshot {
    BackendStartupSnapshot { status, message: message.to_string(), host: host.to_string(), port }
}

#[test]
fn new_supervisor_is_idle_and_empty() {
    let state: BackendProcessState<u32> = BackendProcessState::new();
    assert!(!state.has_child());
    let snapshot = state.startup_snapshot();
    assert_eq!(snapshot.status, StartupStatus::Idle);
    assert_eq!(snapshot.message, "Ожидание запуска backend...");
    assert_eq!(snapshot.message, IDLE_MESSAGE);
    assert_eq!(snapshot.host, "127.0.0.1");
    assert_eq!(snapshot.port, 5055);
}

#[test]
fn default_supervisor_is_the_new_one() {
    let state: BackendProcessState<u32> = BackendProcessState::default();
    assert!(!state.has_child());
    assert_eq!(state.startup_snapshot().status, StartupStatus::Idle);
    let snapshot = BackendStartupSnapshot::default();
    assert_eq!(snapshot.status.as_str(), "idle");
    assert_eq!(snapshot.port, 5055);
}

#[test]
fn status_names() {
    assert_eq!(StartupStatus::Idle.as_str(), "idle");
    assert_eq!(StartupStatus::Starting.as_str(), "starting");
    assert_eq!(StartupStatus::Ready.as_str(), "ready");
    assert_eq!(StartupStatus::Error.as_str(), "error");
    assert_eq!(StartupStatus::Stopped.as_str(), "stopped");
}

#[test]
fn store_hands_out_nothing_at_first() {
    let mut state: BackendProcessState<u32> = BackendProcessState::new();
    assert_eq!(state.store_child(11), None);
    assert!(state.has_child());
    assert_eq!(state.child_mut().copied(), Some(11));
}

#[test]
fn second_store_hands_out_the_first_process() {
    let mut state: BackendProcessState<u32> = BackendProcessState::new();
    assert_eq!(state.store_child(11), None);
    assert_eq!(state.store_child(22), Some(11));
    assert_eq!(state.child_mut().copied(), Some(22));
    assert_eq!(state.take_child(), Some(22));
    assert_eq!(state.take_child(), None);
    assert!(!state.has_child());
}

#[test]
fn store_leaves_the_snapshot() {
    let mut state: BackendProcessState<u32> = BackendProcessState::new();
    state.set_startup_status_with_endpoint(StartupStatus::Ready, "up".to_string(), "h", 6000);
    state.store_child(1);
    let snapshot = state.startup_snapshot();
    assert_eq!(snapshot.status, StartupStatus::Ready);
    assert_eq!(snapshot.message, "up");
    assert_eq!(snapshot.host, "h");
    assert_eq!(snapshot.port, 6000);
}

#[test]
fn child_can_be_changed_in_place() {
    let mut state: BackendProcessState<Vec<u8>> = BackendProcessState::new();
    assert!(state.child_mut().is_none());
    state.store_child(vec![1]);
    state.child_mut().unwrap().push(2);
    assert_eq!(state.take_child(), Some(vec![1, 2]));
}

#[test]
fn running_process_stays() {
    let mut state: BackendProcessState<u32> = BackendProcessState::new();
    state.store_child(5);
    assert!(state.running(&ExitPoll::Running));
    assert!(state.has_child());
    assert!(state.running(&ExitPoll::Running));
}

#[test]
fn exited_process_is_released() {
    let mut state: BackendProcessState<u32> = BackendProcessState::new();
    state.store_child(5);
    assert!(!state.running(&exited("exit status: 0")));
    assert!(!state.has_child());
    assert!(!state.running(&ExitPoll::Running));
}

#[test]
fn process_that_cannot_be_asked_is_released() {
    let mut state: BackendProcessState<u32> = BackendProcessState::new();
    state.store_child(5);
    assert!(!state.running(&ExitPoll::Failed));
    assert!(!state.has_child());
}

#[test]
fn nothing_supervised_is_not_running() {
    let mut state: BackendProcessState<u32> = BackendProcessState::new();
    assert!(!state.running(&ExitPoll::Running));
    assert!(!state.running(&ExitPoll::Failed));
    assert!(!state.running(&exited("x")));
    assert!(!state.has_child());
}

#[test]
fn stop_hands_out_the_process_and_publishes_stopped() {
    let mut state: BackendProcessState<u32> = BackendProcessState::new();
    state.set_startup_status_with_endpoint(StartupStatus::Ready, "up".to_string(), "h", 6000);
    state.store_child(9);
    assert_eq!(state.stop(), Some(9));
    assert!(!state.has_child());
    let snapshot = state.startup_snapshot();
    assert_eq!(snapshot.status, StartupStatus::Stopped);
    assert_eq!(snapshot.message, "Локальный backend остановлен.");
    assert_eq!(snapshot.message, STOPPED_MESSAGE);
    assert_eq!(snapshot.host, "h");
    assert_eq!(snapshot.port, 6000);
}

#[test]
fn stop_without_process_changes_only_the_status() {
    let mut state: BackendProcessState<u32> = BackendProcessState::new();
    assert_eq!(state.stop(), None);
    assert!(!state.has_child());
    let once = state.startup_snapshot();
    assert_eq!(once.status, StartupStatus::Stopped);
    assert_eq!(state.stop(), None);
    let twice = state.startup_snapshot();
    assert_eq!(twice.status, once.status);
    assert_eq!(twice.message, once.message);
    assert_eq!(twice.host, once.host);
    assert_eq!(twice.port, once.port);
}

#[test]
fn publishing_a_status_keeps_the_endpoint() {
    let mut state: BackendProcessState<u32> = BackendProcessState::new();
    state.set_startup_status_with_endpoint(StartupStatus::Starting, "a".to_string(), " x ", 7);
    state.set_startup_status(StartupStatus::Error, "b".to_string());
    let snapshot = state.startup_snapshot();
    assert_eq!(snapshot.status, StartupStatus::Error);
    assert_eq!(snapshot.message, "b");
    assert_eq!(snapshot.host, "x");
    assert_eq!(snapshot.port, 7);
}

#[test]
fn publishing_at_an_endpoint_normalizes_it() {
    let mut state: BackendProcessState<u32> = BackendProcessState::new();
    state.set_startup_status_with_endpoint(StartupStatus::Starting, "a".to_string(), "  ", 0);
    let snapshot = state.startup_snapshot();
    assert_eq!(snapshot.host, "127.0.0.1");
    assert_eq!(snapshot.port, 5055);
}

#[test]
fn status_repairs_a_blank_host_and_a_zero_port() {
    let mut blank = snapshot(StartupStatus::Idle, "m", "  ", 0);
    blank.set_status(StartupStatus::Starting, "n".to_string());
    assert_eq!(blank.status, StartupStatus::Starting);
    assert_eq!(blank.message, "n");
    assert_eq!(blank.host, "127.0.0.1");
    assert_eq!(blank.port, 5055);

    let mut padded = snapshot(StartupStatus::Idle, "m", " h ", 81);
    padded.set_status(StartupStatus::Ready, "n".to_string());
    assert_eq!(padded.host, " h ");
    assert_eq!(padded.port, 81);
}

#[test]
fn unavailable_snapshot_is_an_error_at_the_defaults() {
    let snapshot = BackendStartupSnapshot::unavailable();
    assert_eq!(snapshot.status, StartupStatus::Error);
    assert_eq!(snapshot.message, "Не удалось прочитать состояние запуска backend.");
    assert_eq!(snapshot.message, UNAVAILABLE_MESSAGE);
    assert_eq!(snapshot.host, "127.0.0.1");
    assert_eq!(snapshot.port, 5055);
}

#[test]
fn snapshot_clone_is_equal() {
    let original = snapshot(StartupStatus::Ready, "m", "h", 1);
    let copy = original.clone();
    assert_eq!(copy.status, original.status);
    assert_eq!(copy.message, original.message);
    assert_eq!(copy.host, original.host);
    assert_eq!(copy.port, original.port);
}

#[test]
fn backend_is_running_if_process_or_endpoint_lives() {
    assert_eq!(backend_status(true, false), "running");
    assert_eq!(backend_status(false, true), "running");
    assert_eq!(backend_status(true, true), "running");
    assert_eq!(backend_status(false, false), "stopped");
}

#[test]
fn ready_snapshot_of_dead_backend_is_given_out_as_stopped() {
    let reported =
        backend_startup_snapshot(snapshot(StartupStatus::Ready, "up", " h ", 0), false, false);
    assert_eq!(reported.status, StartupStatus::Stopped);
    assert_eq!(reported.message, "Локальный backend остановлен.");
    assert_eq!(reported.host, "h");
    assert_eq!(reported.port, 5055);
}

#[test]
fn ready_snapshot_of_live_backend_stays_ready() {
    for (running, healthy) in [(true, false), (false, true), (true, true)] {
        let reported =
            backend_startup_snapshot(snapshot(StartupStatus::Ready, "up", "h", 9), running, healthy);
        assert_eq!(reported.status, StartupStatus::Ready);
        assert_eq!(reported.message, "up");
        assert_eq!(reported.host, "h");
        assert_eq!(reported.port, 9);
    }
}

#[test]
fn other_snapshots_are_given_out_as_they_stand() {
    for status in [
        StartupStatus::Idle,
        StartupStatus::Starting,
        StartupStatus::Error,
        StartupStatus::Stopped,
    ] {
        let reported = backend_startup_snapshot(snapshot(status, "m", "", 0), false, false);
        assert_eq!(reported.status, status);
        assert_eq!(reported.message, "m");
        assert_eq!(reported.host, "127.0.0.1");
        assert_eq!(reported.port, 5055);
    }
}
