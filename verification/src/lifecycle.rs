//! The decision logic of the four lifecycle operations.
//!
//! Each operation is a sequential script: observe the current logical
//! state, decide, issue at most one mutating platform call, and converge by
//! polling. The platform shell performs the actual calls; this module holds
//! the decisions (`plan_*`), the mathematical models of whole operations
//! over the outcomes the platform hands back (`*_model`), and executable
//! runners proved equal to the models (`run_*`). The runner consumes a
//! recorded sequence of observed states where the shell would query live.
//!
//! The models make the two documented tolerances explicit: a native start
//! or stop call error before polling is not consulted at all (the poll
//! decides), and a stop failure during uninstall never blocks the removal
//! of the artifact.

use vstd::prelude::*;
use crate::error::ServiceError;
use crate::poller::{
    lemma_poll_fail_fast, lemma_poll_spec_bounds, lemma_poll_timeout, pending_toward, poll_spec,
    poll_trace,
};
use crate::state::ServiceState;

verus! {

/// The first decision of `install`, from the observed logical state.
#[derive(Clone, Copy, Debug, PartialEq, Eq, Structural)]
pub enum InstallDecision {
    /// The artifact exists and the service runs: succeed with no-op.
    AlreadyRunning,
    /// The artifact exists but the service is stopped: delegate to start
    /// rather than re-writing the artifact.
    StartExisting,
    /// No artifact: render the unit definition, write and register it,
    /// then start and converge.
    FreshInstall,
    /// The artifact exists but the state is neither settled nor absent:
    /// report it as an error without mutating anything.
    Anomalous(ServiceState),
}

/// The first decision of `uninstall`.
#[derive(Clone, Copy, Debug, PartialEq, Eq, Structural)]
pub enum UninstallDecision {
    /// No artifact: succeed with no-op — uninstall is terminal-idempotent.
    NothingInstalled,
    /// The service runs: stop it first (tolerating failure), then remove
    /// the artifact.
    StopThenRemove,
    /// Not running: remove the artifact directly.
    RemoveDirectly,
}

/// The first decision of `start`.
#[derive(Clone, Copy, Debug, PartialEq, Eq, Structural)]
pub enum StartDecision {
    /// Already running: succeed with no-op.
    AlreadyRunning,
    /// No artifact: fail with `NotInstalled`; the caller must install.
    NotYetInstalled,
    /// Issue the native start call and converge toward `Running`.
    IssueStart,
}

/// The first decision of `stop`.
#[derive(Clone, Copy, Debug, PartialEq, Eq, Structural)]
pub enum StopDecision {
    /// Already stopped, or nothing installed: succeed with no-op.
    AlreadyStopped,
    /// Issue the native stop call and converge toward `Stopped`.
    IssueStop,
}

/// What `plan_install` decides for each observed state.
pub open spec fn spec_plan_install(cur: ServiceState) -> InstallDecision {
    match cur {
        ServiceState::Running => InstallDecision::AlreadyRunning,
        ServiceState::Stopped => InstallDecision::StartExisting,
        ServiceState::NotInstalled => InstallDecision::FreshInstall,
        _ => InstallDecision::Anomalous(cur),
    }
}

/// Decides how `install` proceeds from the observed state.
pub fn plan_install(cur: ServiceState) -> (d: InstallDecision)
    ensures
        d == spec_plan_install(cur),
{
    match cur {
        ServiceState::Running => InstallDecision::AlreadyRunning,
        ServiceState::Stopped => InstallDecision::StartExisting,
        ServiceState::NotInstalled => InstallDecision::FreshInstall,
        _ => InstallDecision::Anomalous(cur),
    }
}

/// What `plan_uninstall` decides for each observed state.
pub open spec fn spec_plan_uninstall(cur: ServiceState) -> UninstallDecision {
    if cur == ServiceState::NotInstalled {
        UninstallDecision::NothingInstalled
    } else if cur == ServiceState::Running {
        UninstallDecision::StopThenRemove
    } else {
        UninstallDecision::RemoveDirectly
    }
}

/// Decides how `uninstall` proceeds from the observed state.
pub fn plan_uninstall(cur: ServiceState) -> (d: UninstallDecision)
    ensures
        d == spec_plan_uninstall(cur),
{
    if cur == ServiceState::NotInstalled {
        UninstallDecision::NothingInstalled
    } else if cur == ServiceState::Running {
        UninstallDecision::StopThenRemove
    } else {
        UninstallDecision::RemoveDirectly
    }
}

/// What `plan_start` decides for each observed state.
pub open spec fn spec_plan_start(cur: ServiceState) -> StartDecision {
    if cur == ServiceState::Running {
        StartDecision::AlreadyRunning
    } else if cur == ServiceState::NotInstalled {
        StartDecision::NotYetInstalled
    } else {
        StartDecision::IssueStart
    }
}

/// Decides how `start` proceeds from the observed state.
pub fn plan_start(cur: ServiceState) -> (d: StartDecision)
    ensures
        d == spec_plan_start(cur),
{
    if cur == ServiceState::Running {
        StartDecision::AlreadyRunning
    } else if cur == ServiceState::NotInstalled {
        StartDecision::NotYetInstalled
    } else {
        StartDecision::IssueStart
    }
}

/// What `plan_stop` decides for each observed state.
pub open spec fn spec_plan_stop(cur: ServiceState) -> StopDecision {
    if cur == ServiceState::Stopped || cur == ServiceState::NotInstalled {
        StopDecision::AlreadyStopped
    } else {
        StopDecision::IssueStop
    }
}

/// Decides how `stop` proceeds from the observed state.
pub fn plan_stop(cur: ServiceState) -> (d: StopDecision)
    ensures
        d == spec_plan_stop(cur),
{
    if cur == ServiceState::Stopped || cur == ServiceState::NotInstalled {
        StopDecision::AlreadyStopped
    } else {
        StopDecision::IssueStop
    }
}

/// The outcome of a whole `start`: the result handed to the caller and the
/// last state observed. A spurious error of the native start call itself
/// is tolerated and does not appear here: the convergence poll alone
/// decides.
pub open spec fn start_model(
    cur: ServiceState,
    obs: Seq<ServiceState>,
    left: nat,
) -> (Result<(), ServiceError>, ServiceState) {
    if cur == ServiceState::Running {
        (Ok(()), cur)
    } else if cur == ServiceState::NotInstalled {
        (Err(ServiceError::NotInstalled), cur)
    } else {
        let (q, r) = poll_spec(ServiceState::Running, obs, left);
        (r, if q == 0 { cur } else { obs[q - 1] })
    }
}

/// The outcome of a whole `stop`, like [`start_model`] toward `Stopped`.
pub open spec fn stop_model(
    cur: ServiceState,
    obs: Seq<ServiceState>,
    left: nat,
) -> (Result<(), ServiceError>, ServiceState) {
    if cur == ServiceState::Stopped || cur == ServiceState::NotInstalled {
        (Ok(()), cur)
    } else {
        let (q, r) = poll_spec(ServiceState::Stopped, obs, left);
        (r, if q == 0 { cur } else { obs[q - 1] })
    }
}

/// The outcome of a whole `install`. `register` is how rendering, writing
/// and registering the artifact went; it is consulted only on a fresh
/// install, so an existing artifact is never re-written.
pub open spec fn install_model(
    cur: ServiceState,
    register: Result<(), ServiceError>,
    obs: Seq<ServiceState>,
    left: nat,
) -> (Result<(), ServiceError>, ServiceState) {
    match spec_plan_install(cur) {
        InstallDecision::AlreadyRunning => (Ok(()), cur),
        InstallDecision::StartExisting => start_model(cur, obs, left),
        InstallDecision::FreshInstall => if register is Err {
            (register, cur)
        } else {
            let (q, r) = poll_spec(ServiceState::Running, obs, left);
            (r, if q == 0 { ServiceState::Unknown } else { obs[q - 1] })
        },
        InstallDecision::Anomalous(s) => (Err(ServiceError::UnexpectedState(s)), cur),
    }
}

/// The outcome of a whole `uninstall`. `remove` is how deleting the
/// artifact went, `reload` how refreshing the manager's unit cache went.
/// The stop attempt's own outcome is deliberately not consulted: an
/// un-stoppable service never blocks removal.
pub open spec fn uninstall_model(
    cur: ServiceState,
    stop_obs: Seq<ServiceState>,
    left: nat,
    remove: Result<(), ServiceError>,
    reload: Result<(), ServiceError>,
) -> (Result<(), ServiceError>, ServiceState) {
    match spec_plan_uninstall(cur) {
        UninstallDecision::NothingInstalled => (Ok(()), cur),
        _ => {
            let mid = if cur == ServiceState::Running {
                stop_model(cur, stop_obs, left).1
            } else {
                cur
            };
            if remove is Err {
                (remove, mid)
            } else if reload is Err {
                (reload, ServiceState::NotInstalled)
            } else {
                (Ok(()), ServiceState::NotInstalled)
            }
        },
    }
}

/// Runs `start` over a recorded sequence of observed states, exactly as
/// [`start_model`] says. The sequence must hold one more reading than the
/// retry budget, so the poll always reaches a decision.
pub fn run_start(
    cur: ServiceState,
    observations: &Vec<ServiceState>,
    max_attempts: u32,
) -> (r: (Result<(), ServiceError>, ServiceState))
    requires
        observations@.len() > max_attempts as nat,
    ensures
        r == start_model(cur, observations@, max_attempts as nat),
{
    match plan_start(cur) {
        StartDecision::AlreadyRunning => (Ok(()), cur),
        StartDecision::NotYetInstalled => (Err(ServiceError::NotInstalled), cur),
        StartDecision::IssueStart => {
            let pr = poll_trace(ServiceState::Running, observations, max_attempts);
            (pr.1, observations[pr.0 - 1])
        },
    }
}

/// Runs `stop` over a recorded sequence of observed states, exactly as
/// [`stop_model`] says.
pub fn run_stop(
    cur: ServiceState,
    observations: &Vec<ServiceState>,
    max_attempts: u32,
) -> (r: (Result<(), ServiceError>, ServiceState))
    requires
        observations@.len() > max_attempts as nat,
    ensures
        r == stop_model(cur, observations@, max_attempts as nat),
{
    match plan_stop(cur) {
        StopDecision::AlreadyStopped => (Ok(()), cur),
        StopDecision::IssueStop => {
            let pr = poll_trace(ServiceState::Stopped, observations, max_attempts);
            (pr.1, observations[pr.0 - 1])
        },
    }
}

/// Runs `install` over the registration outcome and a recorded sequence of
/// observed states, exactly as [`install_model`] says.
pub fn run_install(
    cur: ServiceState,
    register: Result<(), ServiceError>,
    observations: &Vec<ServiceState>,
    max_attempts: u32,
) -> (r: (Result<(), ServiceError>, ServiceState))
    requires
        observations@.len() > max_attempts as nat,
    ensures
        r == install_model(cur, register, observations@, max_attempts as nat),
{
    match plan_install(cur) {
        InstallDecision::AlreadyRunning => (Ok(()), cur),
        InstallDecision::StartExisting => run_start(cur, observations, max_attempts),
        InstallDecision::FreshInstall => match register {
            Err(e) => (Err(e), cur),
            Ok(()) => {
                let pr = poll_trace(ServiceState::Running, observations, max_attempts);
                (pr.1, observations[pr.0 - 1])
            },
        },
        InstallDecision::Anomalous(s) => (Err(ServiceError::UnexpectedState(s)), cur),
    }
}

/// Runs `uninstall` over a recorded sequence of observed states for the
/// stop attempt and the outcomes of removal and cache reload, exactly as
/// [`uninstall_model`] says. The stop attempt's result is discarded.
pub fn run_uninstall(
    cur: ServiceState,
    stop_observations: &Vec<ServiceState>,
    max_attempts: u32,
    remove: Result<(), ServiceError>,
    reload: Result<(), ServiceError>,
) -> (r: (Result<(), ServiceError>, ServiceState))
    requires
        stop_observations@.len() > max_attempts as nat,
    ensures
        r == uninstall_model(cur, stop_observations@, max_attempts as nat, remove, reload),
{
    match plan_uninstall(cur) {
        UninstallDecision::NothingInstalled => (Ok(()), cur),
        _ => {
            let mid = if matches!(cur, ServiceState::Running) {
                let sr = run_stop(cur, stop_observations, max_attempts);
                sr.1
            } else {
                cur
            };
            match remove {
                Err(e) => (Err(e), mid),
                Ok(()) => match reload {
                    Err(e) => (Err(e), ServiceState::NotInstalled),
                    Ok(()) => (Ok(()), ServiceState::NotInstalled),
                },
            }
        },
    }
}

/// Idempotence of `install`: an install that succeeds leaves the service
/// `Running`, and with no external interference a second install in that
/// world is a no-op success — it never produces an error.
pub proof fn lemma_install_idempotent(
    cur: ServiceState,
    register1: Result<(), ServiceError>,
    obs1: Seq<ServiceState>,
    left1: nat,
    register2: Result<(), ServiceError>,
    obs2: Seq<ServiceState>,
    left2: nat,
)
    requires
        obs1.len() > left1,
        install_model(cur, register1, obs1, left1).0 is Ok,
    ensures
        install_model(cur, register1, obs1, left1).1 == ServiceState::Running,
        install_model(install_model(cur, register1, obs1, left1).1, register2, obs2, left2)
            == (Ok::<(), ServiceError>(()), ServiceState::Running),
{
    if cur == ServiceState::Stopped {
        lemma_poll_spec_bounds(ServiceState::Running, obs1, left1);
    } else if cur == ServiceState::NotInstalled {
        lemma_poll_spec_bounds(ServiceState::Running, obs1, left1);
    }
}

/// Idempotence of `uninstall`: on a never-installed service it succeeds as
/// a no-op, whatever the stop-phase observations or outcomes would be.
pub proof fn lemma_uninstall_idempotent(
    stop_obs: Seq<ServiceState>,
    left: nat,
    remove: Result<(), ServiceError>,
    reload: Result<(), ServiceError>,
)
    ensures
        uninstall_model(ServiceState::NotInstalled, stop_obs, left, remove, reload)
            == (Ok::<(), ServiceError>(()), ServiceState::NotInstalled),
{
}

/// Idempotence of the settled states: `start` on a running service and
/// `stop` on a stopped one are no-ops that change nothing.
pub proof fn lemma_settled_noop(obs: Seq<ServiceState>, left: nat)
    ensures
        start_model(ServiceState::Running, obs, left)
            == (Ok::<(), ServiceError>(()), ServiceState::Running),
        stop_model(ServiceState::Stopped, obs, left)
            == (Ok::<(), ServiceError>(()), ServiceState::Stopped),
{
}

/// Uninstall resilience: on an installed service, whatever the stop
/// attempt observes — including never reaching `Stopped` at all — the
/// artifact is still removed, and when removal and cache reload succeed
/// the whole uninstall reports success.
pub proof fn lemma_uninstall_resilient(cur: ServiceState, stop_obs: Seq<ServiceState>, left: nat)
    requires
        cur != ServiceState::NotInstalled,
    ensures
        uninstall_model(cur, stop_obs, left, Ok(()), Ok(()))
            == (Ok::<(), ServiceError>(()), ServiceState::NotInstalled),
{
}

/// Convergence bound of `start`: on an installed, not-yet-running service,
/// if the backend reports nothing but start-pending — never `Running` —
/// within the retry budget, `start` fails with `Timeout` rather than
/// hanging unbounded.
pub proof fn lemma_start_timeout(cur: ServiceState, obs: Seq<ServiceState>, left: nat)
    requires
        obs.len() > left,
        cur != ServiceState::Running,
        cur != ServiceState::NotInstalled,
        forall|j: int| 0 <= j < obs.len() ==> obs[j] == ServiceState::StartPending,
    ensures
        start_model(cur, obs, left).0 == Err::<(), ServiceError>(ServiceError::Timeout),
{
    assert(forall|j: int|
        0 <= j < obs.len() ==> pending_toward(#[trigger] obs[j], ServiceState::Running));
    lemma_poll_timeout(ServiceState::Running, obs, left);
}

/// Fail-fast of `start`: if right after the start was issued the backend
/// reports `Stopped` — a settled state, not a pending phase — `start`
/// fails with `UnexpectedState` at once, whatever retry budget is left.
pub proof fn lemma_start_fail_fast(cur: ServiceState, obs: Seq<ServiceState>, left: nat)
    requires
        obs.len() > left,
        cur != ServiceState::Running,
        cur != ServiceState::NotInstalled,
        obs[0] == ServiceState::Stopped,
    ensures
        start_model(cur, obs, left).0
            == Err::<(), ServiceError>(ServiceError::UnexpectedState(ServiceState::Stopped)),
{
    lemma_poll_fail_fast(ServiceState::Running, obs, left);
}

/// An install over an existing, stopped artifact delegates to `start`: the
/// registration outcome is never consulted, so the artifact is not
/// re-written.
pub proof fn lemma_install_delegates_to_start(
    register: Result<(), ServiceError>,
    obs: Seq<ServiceState>,
    left: nat,
)
    ensures
        install_model(ServiceState::Stopped, register, obs, left)
            == start_model(ServiceState::Stopped, obs, left),
{
}

} // verus!
