use application_boot::event::ApplicationEvenType::{self, ContextInitialized, EnvironmentPrepared, Failed, Prepared, Started, Starting, Stopped};
use application_boot::lifecycle::{Action, Lifecycle, Phase, StepOutcome, WebApplicationType};

/// Drives a run: `refresh_ok` is how the refresh ends, `spurious` how many
/// wake-ups see the flag still unset before the one that sees it set.
fn drive(mode: WebApplicationType, refresh_ok: bool, spurious: usize) -> (Vec<ApplicationEvenType>, Phase) {
    let mut lc = Lifecycle::new(mode);
    let mut wakes = 0;
    let mut emitted = Vec::new();
    while !lc.is_finished() {
        let outcome = match lc.next_action() {
            Action::Refresh => {
                if refresh_ok {
                    StepOutcome::Succeeded
                } else {
                    StepOutcome::Errored
                }
            }
            Action::WaitForShutdown => {
                wakes += 1;
                StepOutcome::Woke { stopped: wakes > spurious }
            }
            Action::Emit(e) => {
                emitted.push(e);
                StepOutcome::Succeeded
            }
            _ => StepOutcome::Succeeded,
        };
        lc.advance(outcome);
    }
    assert_eq!(&emitted, lc.get_events());
    (emitted, lc.get_phase())
}

#[test]
fn successful_server_run_event_order() {
    let (events, phase) = drive(WebApplicationType::WEB, true, 0);
    assert_eq!(
        events,
        vec![Starting, EnvironmentPrepared, ContextInitialized, Prepared, Started, Stopped]
    );
    assert_eq!(phase, Phase::Stopped);
}

#[test]
fn failed_refresh_event_order() {
    let (events, phase) = drive(WebApplicationType::WEB, false, 0);
    assert_eq!(events, vec![Starting, EnvironmentPrepared, ContextInitialized, Prepared, Failed]);
    assert_eq!(phase, Phase::Failed);
}

#[test]
fn spurious_wakeups_emit_stopped_once() {
    let (events, phase) = drive(WebApplicationType::WEB, true, 3);
    assert_eq!(events.iter().filter(|e| **e == Stopped).count(), 1);
    assert_eq!(
        events,
        vec![Starting, EnvironmentPrepared, ContextInitialized, Prepared, Started, Stopped]
    );
    assert_eq!(phase, Phase::Stopped);
}

#[test]
fn non_server_run_does_not_wait() {
    let mut lc = Lifecycle::new(WebApplicationType::NONE);
    while !lc.is_finished() {
        assert_ne!(lc.next_action(), Action::WaitForShutdown);
        lc.advance(StepOutcome::Succeeded);
    }
    assert_eq!(
        lc.get_events(),
        &vec![Starting, EnvironmentPrepared, ContextInitialized, Prepared, Started, Stopped]
    );
}

#[test]
fn bootstrap_failure_emits_nothing() {
    let mut lc = Lifecycle::new(WebApplicationType::WEB);
    assert_eq!(lc.next_action(), Action::LoadBootstrap);
    lc.advance(StepOutcome::Errored);
    assert!(lc.is_finished());
    assert_eq!(lc.get_phase(), Phase::BootstrapFailed);
    assert!(lc.get_events().is_empty());
    assert_eq!(lc.next_action(), Action::Finished);
}

#[test]
fn environment_failure_after_starting() {
    let mut lc = Lifecycle::new(WebApplicationType::WEB);
    lc.advance(StepOutcome::Succeeded);
    assert_eq!(lc.next_action(), Action::Emit(Starting));
    lc.advance(StepOutcome::Succeeded);
    assert_eq!(lc.next_action(), Action::BuildEnvironment);
    lc.advance(StepOutcome::Errored);
    assert_eq!(lc.get_phase(), Phase::EnvironmentFailed);
    assert_eq!(lc.get_events(), &vec![Starting]);
    assert!(!lc.is_finished());
    assert_eq!(lc.next_action(), Action::Emit(Failed));
    lc.advance(StepOutcome::Succeeded);
    assert!(lc.is_finished());
    assert_eq!(lc.get_phase(), Phase::FailedBeforeContext);
    assert_eq!(lc.get_events(), &vec![Starting, Failed]);
    assert_eq!(lc.next_action(), Action::Finished);
}

#[test]
fn wait_keeps_waiting_until_flag_set() {
    let mut lc = Lifecycle::new(WebApplicationType::WEB);
    while lc.next_action() != Action::WaitForShutdown {
        lc.advance(StepOutcome::Succeeded);
    }
    lc.advance(StepOutcome::Woke { stopped: false });
    assert_eq!(lc.get_phase(), Phase::StartedEmitted);
    assert_eq!(lc.next_action(), Action::WaitForShutdown);
    lc.advance(StepOutcome::Woke { stopped: true });
    assert_eq!(lc.get_phase(), Phase::ShutdownObserved);
    assert_eq!(lc.next_action(), Action::Emit(Stopped));
}
