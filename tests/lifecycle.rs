use ngrok::error::Error;
use ngrok::handle::{HandleState, Teardown};
use ngrok::supervisor::{next, ExitOutcome, SupervisorAction, SupervisorEvent, SupervisorState};

#[test]
fn discovery_starts_polling() {
    assert_eq!(
        next(SupervisorState::Starting, SupervisorEvent::Discovered),
        (SupervisorState::Running, SupervisorAction::Wait)
    );
    assert_eq!(
        next(SupervisorState::Running, SupervisorEvent::Alive),
        (SupervisorState::Running, SupervisorAction::Wait)
    );
}

#[test]
fn spontaneous_exit_is_delivered() {
    let (state, action) = next(SupervisorState::Running, SupervisorEvent::Exited("signal: 9".to_string()));
    assert_eq!(state, SupervisorState::ExitedUnexpectedly("signal: 9".to_string()));
    assert_eq!(action, SupervisorAction::Deliver(ExitOutcome::Failed("signal: 9".to_string())));
    let (again, action) = next(state, SupervisorEvent::Exited("signal: 9".to_string()));
    assert_eq!(again, SupervisorState::ExitedUnexpectedly("signal: 9".to_string()));
    assert_eq!(action, SupervisorAction::Ignore);
}

#[test]
fn failed_query_is_delivered() {
    let (state, action) = next(SupervisorState::Running, SupervisorEvent::QueryFailed("EPERM".to_string()));
    assert_eq!(state, SupervisorState::ExitedUnexpectedly("EPERM".to_string()));
    assert_eq!(action, SupervisorAction::Deliver(ExitOutcome::Failed("EPERM".to_string())));
}

#[test]
fn stop_kills_then_delivers_once() {
    let (state, action) = next(SupervisorState::Running, SupervisorEvent::StopRequested);
    assert_eq!(state, SupervisorState::Stopping);
    assert_eq!(action, SupervisorAction::Kill);
    let (state, action) = next(state, SupervisorEvent::Alive);
    assert_eq!(state, SupervisorState::Stopping);
    assert_eq!(action, SupervisorAction::Ignore);
    let (state, action) = next(state, SupervisorEvent::KillDone);
    assert_eq!(state, SupervisorState::StoppedByCaller);
    assert_eq!(action, SupervisorAction::Deliver(ExitOutcome::Clean));
    let (state, action) = next(state, SupervisorEvent::StopRequested);
    assert_eq!(state, SupervisorState::StoppedByCaller);
    assert_eq!(action, SupervisorAction::Ignore);
}

#[test]
fn failed_kill_is_delivered() {
    let (state, action) = next(SupervisorState::Stopping, SupervisorEvent::KillFailed("ESRCH".to_string()));
    assert_eq!(state, SupervisorState::StoppedByCaller);
    assert_eq!(action, SupervisorAction::Deliver(ExitOutcome::Failed("ESRCH".to_string())));
}

#[test]
fn status_is_up_until_exit() {
    let mut handle = HandleState::new();
    assert!(!handle.is_finished());
    assert_eq!(handle.status(None), Ok(()));
    assert_eq!(handle.status(None), Ok(()));
    assert!(!handle.is_finished());
}

#[test]
fn exit_error_is_cached() {
    let mut handle = HandleState::new();
    let exited = Error::TunnelProcessExited("signal: 9".to_string());
    assert_eq!(handle.status(Some(ExitOutcome::Failed("signal: 9".to_string()))), Err(exited.clone()));
    assert!(handle.is_finished());
    assert_eq!(handle.status(None), Err(exited.clone()));
    assert_eq!(handle.status(Some(ExitOutcome::Clean)), Err(exited));
}

#[test]
fn teardown_signals_once() {
    let mut handle = HandleState::new();
    assert_eq!(handle.begin_teardown(), Teardown::SignalAndAwait);
    assert_eq!(handle.begin_teardown(), Teardown::Await);
    handle.finish_teardown(ExitOutcome::Clean);
    assert!(handle.is_finished());
    assert_eq!(handle.begin_teardown(), Teardown::Done);
    assert_eq!(handle.status(None), Ok(()));
}

#[test]
fn teardown_after_exit_does_nothing() {
    let mut handle = HandleState::new();
    let _ = handle.status(Some(ExitOutcome::Failed("exit status: 1".to_string())));
    assert_eq!(handle.begin_teardown(), Teardown::Done);
    handle.finish_teardown(ExitOutcome::Clean);
    assert_eq!(
        handle.status(None),
        Err(Error::TunnelProcessExited("exit status: 1".to_string()))
    );
}
