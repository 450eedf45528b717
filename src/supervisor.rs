//! The decisions of the supervisor: the one owner of the tunnel process.
//!
//! The driving loop polls the process, listens for a stop request, and feeds what
//! it saw to `next`; it then carries out the returned action. The state machine
//! delivers exactly one outcome over its life, and a stop request always leads to
//! the process being killed before that outcome is delivered.
use vstd::prelude::*;

verus! {

/// How the supervised process ended, as reported to the handle.
#[derive(Debug, PartialEq, Eq)]
pub enum ExitOutcome {
    /// The process was stopped on request and the kill succeeded.
    Clean,
    /// The process ended on its own, or could not be queried or killed; the text says why.
    Failed(String),
}

/// The supervisor's state.
#[derive(Debug, PartialEq, Eq)]
pub enum SupervisorState {
    /// The process was spawned; discovery has not finished.
    Starting,
    /// The tunnel is up and the process is polled.
    Running,
    /// A stop was requested and the kill is in flight.
    Stopping,
    /// Terminal: the process was stopped on request.
    StoppedByCaller,
    /// Terminal: the process ended by itself, or could not be queried.
    ExitedUnexpectedly(String),
}

/// What the driving loop observed.
pub enum SupervisorEvent {
    /// Discovery succeeded.
    Discovered,
    /// A poll found the process still running and no stop request waiting.
    Alive,
    /// A poll found that the process has exited; the text is its exit status.
    Exited(String),
    /// The process's status could not be queried; the text is the error.
    QueryFailed(String),
    /// The handle asked for the process to be stopped.
    StopRequested,
    /// The process was killed and reaped.
    KillDone,
    /// Killing the process failed; the text is the error.
    KillFailed(String),
}

/// What the driving loop does next.
#[derive(Debug, PartialEq, Eq)]
pub enum SupervisorAction {
    /// Wait one poll interval, then poll again.
    Wait,
    /// Kill the process, wait for it, and report how that went.
    Kill,
    /// Send this outcome to the handle; the loop then ends.
    Deliver(ExitOutcome),
    /// Nothing to do.
    Ignore,
}

pub open spec fn is_terminal(s: SupervisorState) -> bool {
    s is StoppedByCaller || s is ExitedUnexpectedly
}

/// The transition of the supervisor on one event.
pub open spec fn transition(s: SupervisorState, e: SupervisorEvent) -> (SupervisorState, SupervisorAction) {
    match s {
        SupervisorState::StoppedByCaller | SupervisorState::ExitedUnexpectedly(_) => (s, SupervisorAction::Ignore),
        SupervisorState::Stopping => match e {
            SupervisorEvent::KillDone => (
                SupervisorState::StoppedByCaller,
                SupervisorAction::Deliver(ExitOutcome::Clean),
            ),
            SupervisorEvent::KillFailed(d) => (
                SupervisorState::StoppedByCaller,
                SupervisorAction::Deliver(ExitOutcome::Failed(d)),
            ),
            _ => (s, SupervisorAction::Ignore),
        },
        _ => match e {
            SupervisorEvent::Discovered => (SupervisorState::Running, SupervisorAction::Wait),
            SupervisorEvent::Exited(d) => (
                SupervisorState::ExitedUnexpectedly(d),
                SupervisorAction::Deliver(ExitOutcome::Failed(d)),
            ),
            SupervisorEvent::QueryFailed(d) => (
                SupervisorState::ExitedUnexpectedly(d),
                SupervisorAction::Deliver(ExitOutcome::Failed(d)),
            ),
            SupervisorEvent::StopRequested => (SupervisorState::Stopping, SupervisorAction::Kill),
            _ => (s, SupervisorAction::Wait),
        },
    }
}

/// The supervisor's next state and action.
pub fn next(state: SupervisorState, event: SupervisorEvent) -> (r: (SupervisorState, SupervisorAction))
    ensures
        r == transition(state, event),
{
    match state {
        SupervisorState::StoppedByCaller => (state, SupervisorAction::Ignore),
        SupervisorState::ExitedUnexpectedly(_) => (state, SupervisorAction::Ignore),
        SupervisorState::Stopping => match event {
            SupervisorEvent::KillDone => (
                SupervisorState::StoppedByCaller,
                SupervisorAction::Deliver(ExitOutcome::Clean),
            ),
            SupervisorEvent::KillFailed(d) => (
                SupervisorState::StoppedByCaller,
                SupervisorAction::Deliver(ExitOutcome::Failed(d)),
            ),
            _ => (state, SupervisorAction::Ignore),
        },
        _ => match event {
            SupervisorEvent::Discovered => (SupervisorState::Running, SupervisorAction::Wait),
            SupervisorEvent::Exited(d) => {
                let cause = d.clone();
                (SupervisorState::ExitedUnexpectedly(d), SupervisorAction::Deliver(ExitOutcome::Failed(cause)))
            },
            SupervisorEvent::QueryFailed(d) => {
                let cause = d.clone();
                (SupervisorState::ExitedUnexpectedly(d), SupervisorAction::Deliver(ExitOutcome::Failed(cause)))
            },
            SupervisorEvent::StopRequested => (SupervisorState::Stopping, SupervisorAction::Kill),
            _ => (state, SupervisorAction::Wait),
        },
    }
}

/// An outcome is delivered exactly on the step that enters a terminal state, and a
/// terminal state never changes; so over any run the outcome is delivered at most
/// once, and the loop, which ends on delivery, never ends without one.
pub proof fn lemma_outcome_delivered_once(s: SupervisorState, e: SupervisorEvent)
    ensures
        (transition(s, e).1 is Deliver) <==> (!is_terminal(s) && is_terminal(transition(s, e).0)),
        is_terminal(s) ==> transition(s, e) == (s, SupervisorAction::Ignore),
{
}

/// A stop request to a supervisor that has not yet finished makes it kill the
/// process, and once the kill is reported the outcome is delivered and the
/// supervisor is finished: stopping never leaves the process behind.
pub proof fn lemma_stop_kills(s: SupervisorState, kill_report: SupervisorEvent)
    requires
        !is_terminal(s),
        !(s is Stopping),
        kill_report is KillDone || kill_report is KillFailed,
    ensures
        transition(s, SupervisorEvent::StopRequested) == (SupervisorState::Stopping, SupervisorAction::Kill),
        transition(SupervisorState::Stopping, kill_report).0 == SupervisorState::StoppedByCaller,
        transition(SupervisorState::Stopping, kill_report).1 is Deliver,
{
}

/// While the process runs and no stop is requested, the supervisor only waits:
/// it never kills nor reports.
pub proof fn lemma_alive_keeps_running(s: SupervisorState)
    requires
        s is Running,
    ensures
        transition(s, SupervisorEvent::Alive) == (SupervisorState::Running, SupervisorAction::Wait),
{
}

} // verus!
