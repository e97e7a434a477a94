use stelliberty_service::error::ServiceError;
use stelliberty_service::poller::{ConvergencePoller, PollDecision, poll_trace};
use stelliberty_service::state::ServiceState;

#[test]
fn trace_converges_on_target() {
    let obs = vec![
        ServiceState::StartPending,
        ServiceState::StartPending,
        ServiceState::Running,
        ServiceState::Running,
    ];
    assert_eq!(poll_trace(ServiceState::Running, &obs, 3), (3, Ok(())));
}

#[test]
fn trace_converges_immediately() {
    let obs = vec![ServiceState::Running];
    assert_eq!(poll_trace(ServiceState::Running, &obs, 0), (1, Ok(())));
}

#[test]
fn trace_times_out_when_target_never_reported() {
    let obs = vec![ServiceState::StartPending; 4];
    assert_eq!(
        poll_trace(ServiceState::Running, &obs, 3),
        (4, Err(ServiceError::Timeout))
    );
}

#[test]
fn trace_fails_fast_on_incompatible_state() {
    // A service reading `Stopped` right after a start cannot self-resolve:
    // one query, no retry budget burned.
    let obs = vec![
        ServiceState::Stopped,
        ServiceState::StartPending,
        ServiceState::StartPending,
        ServiceState::StartPending,
    ];
    assert_eq!(
        poll_trace(ServiceState::Running, &obs, 3),
        (1, Err(ServiceError::UnexpectedState(ServiceState::Stopped)))
    );
}

#[test]
fn trace_fails_fast_mid_poll() {
    let obs = vec![
        ServiceState::StopPending,
        ServiceState::Unknown,
        ServiceState::StopPending,
    ];
    assert_eq!(
        poll_trace(ServiceState::Stopped, &obs, 2),
        (2, Err(ServiceError::UnexpectedState(ServiceState::Unknown)))
    );
}

#[test]
fn step_machine_retries_then_converges() {
    let mut poller = ConvergencePoller::new(ServiceState::Stopped, 100, 30);
    assert_eq!(poller.step(ServiceState::StopPending), PollDecision::Retry);
    assert_eq!(poller.attempts, 1);
    assert_eq!(poller.step(ServiceState::StopPending), PollDecision::Retry);
    assert_eq!(poller.attempts, 2);
    assert_eq!(poller.step(ServiceState::Stopped), PollDecision::Converged);
}

#[test]
fn step_machine_times_out_at_budget() {
    let mut poller = ConvergencePoller::new(ServiceState::Running, 500, 1);
    assert_eq!(poller.step(ServiceState::StartPending), PollDecision::Retry);
    assert_eq!(
        poller.step(ServiceState::StartPending),
        PollDecision::Failed(ServiceError::Timeout)
    );
}

#[test]
fn query_failure_is_success_only_while_stopping() {
    let stopping = ConvergencePoller::new(ServiceState::Stopped, 100, 30);
    assert_eq!(stopping.on_query_failure(), PollDecision::Converged);
    let starting = ConvergencePoller::new(ServiceState::Running, 500, 30);
    assert_eq!(
        starting.on_query_failure(),
        PollDecision::Failed(ServiceError::NativeApiError)
    );
}
