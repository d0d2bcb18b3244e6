use sidecar_supervisor::commands::{get_sidecar_port, SidecarState};
use sidecar_supervisor::readiness::{ReadinessState, SharedReadinessState};
use sidecar_supervisor::supervisor::{Phase, Supervisor, SupervisorError};

#[test]
fn new_supervisor_is_idle() {
    let sup = Supervisor::new();
    assert_eq!(sup.current_phase(), Phase::Idle);
    assert!(!sup.has_live_process());
}

#[test]
fn happy_path_lifecycle() {
    let mut sup = Supervisor::new();
    assert!(sup.begin_start());
    assert_eq!(sup.current_phase(), Phase::Starting);

    assert_eq!(sup.record_spawn(Ok(())), Ok(()));
    assert_eq!(sup.current_phase(), Phase::Starting);
    assert!(sup.has_live_process());

    assert_eq!(sup.take_stdout(), Ok(()));
    assert_eq!(
        sup.take_stdout(),
        Err(SupervisorError::StreamAlreadyTaken)
    );

    sup.note_ready();
    assert_eq!(sup.current_phase(), Phase::Ready);

    assert!(sup.shutdown());
    assert_eq!(sup.current_phase(), Phase::Terminated);
    assert!(!sup.has_live_process());
}

#[test]
fn shutdown_before_start_is_safe() {
    let mut sup = Supervisor::new();
    assert!(!sup.shutdown());
    assert_eq!(sup.current_phase(), Phase::Terminated);
}

#[test]
fn shutdown_twice_is_safe() {
    let mut sup = Supervisor::new();
    assert!(sup.begin_start());
    assert_eq!(sup.record_spawn(Ok(())), Ok(()));
    assert!(sup.shutdown());
    assert!(!sup.shutdown());
    assert_eq!(sup.current_phase(), Phase::Terminated);
}

#[test]
fn second_start_is_refused() {
    let mut sup = Supervisor::new();
    assert!(sup.begin_start());
    assert!(!sup.begin_start());
    assert_eq!(sup.current_phase(), Phase::Starting);
}

#[test]
fn spawn_failure_is_fatal_and_shutdown_stays_safe() {
    let mut sup = Supervisor::new();
    assert!(sup.begin_start());
    let r = sup.record_spawn(Err("no such file".to_string()));
    assert_eq!(
        r,
        Err(SupervisorError::SpawnFailed("no such file".to_string()))
    );
    assert_eq!(sup.current_phase(), Phase::StartupFailed);
    assert!(!sup.has_live_process());
    assert!(!sup.shutdown());
    assert_eq!(sup.current_phase(), Phase::Terminated);
}

#[test]
fn ready_signal_after_shutdown_changes_nothing() {
    let mut sup = Supervisor::new();
    assert!(sup.begin_start());
    assert_eq!(sup.record_spawn(Ok(())), Ok(()));
    assert!(sup.shutdown());
    sup.note_ready();
    assert_eq!(sup.current_phase(), Phase::Terminated);
}

#[test]
fn duplicate_ready_signal_changes_nothing() {
    let mut sup = Supervisor::new();
    assert!(sup.begin_start());
    assert_eq!(sup.record_spawn(Ok(())), Ok(()));
    sup.note_ready();
    sup.note_ready();
    assert_eq!(sup.current_phase(), Phase::Ready);
}

#[test]
fn get_port_when_ready() {
    let state = SidecarState { port: Some(8080) };
    assert_eq!(get_sidecar_port(&state), Ok(8080));
}

#[test]
fn get_port_when_not_ready() {
    let state = SidecarState { port: None };
    assert_eq!(
        get_sidecar_port(&state),
        Err("Sidecar not ready".to_string())
    );
}

#[test]
fn snapshot_from_readiness() {
    assert_eq!(
        SidecarState::from_readiness(ReadinessState::Unknown).port,
        None
    );
    assert_eq!(
        SidecarState::from_readiness(ReadinessState::Ready(9)).port,
        Some(9)
    );
}

#[test]
fn query_surface_end_to_end() {
    let cell = SharedReadinessState::new();

    let snap = SidecarState::from_readiness(cell.query());
    assert!(get_sidecar_port(&snap).is_err());

    assert_eq!(cell.observe_line(b"PORT:3000"), Some(3000));
    let snap = SidecarState::from_readiness(cell.query());
    assert_eq!(get_sidecar_port(&snap), Ok(3000));
}
