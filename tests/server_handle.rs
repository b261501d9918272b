use application_boot::lifecycle::SHUTDOWN_GRACE_SECS;
use application_boot::server::{InvalidTransition, ServerEvent, ServerHandle, ServerState};

#[test]
fn handle_runs_through_its_states() {
    let mut h = ServerHandle::new(8080);
    assert_eq!(h.get_port(), 8080);
    assert_eq!(h.get_state(), ServerState::Created);
    assert!(h.apply(ServerEvent::Start).is_ok());
    assert!(h.apply(ServerEvent::Bound).is_ok());
    assert_eq!(h.get_state(), ServerState::Running);
    assert!(!h.is_shutdown_requested());
    assert!(h.apply(ServerEvent::ShutdownSignal).is_ok());
    assert!(h.is_shutdown_requested());
    assert!(h.apply(ServerEvent::Drained).is_ok());
    assert_eq!(h.get_state(), ServerState::Stopped);
    assert!(h.is_shutdown_requested());
}

#[test]
fn handle_rejects_out_of_order_events() {
    let mut h = ServerHandle::new(1);
    assert_eq!(
        h.apply(ServerEvent::ShutdownSignal),
        Err(InvalidTransition { state: ServerState::Created, event: ServerEvent::ShutdownSignal })
    );
    assert_eq!(h.get_state(), ServerState::Created);
    h.apply(ServerEvent::Start).unwrap();
    h.apply(ServerEvent::BindFailed).unwrap();
    assert_eq!(h.get_state(), ServerState::Stopped);
    assert!(h.apply(ServerEvent::Start).is_err());
}

#[test]
fn grace_period_is_ten_seconds() {
    assert_eq!(SHUTDOWN_GRACE_SECS, 10);
}
