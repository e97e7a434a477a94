//! The bounded convergence poller.
//!
//! A lifecycle operation issues a platform-native action and then drives the
//! observed service state toward a target (`Running` or `Stopped`) by
//! querying it repeatedly: equal to the target is success, a pending phase
//! consistent with progress earns a bounded retry after a sleep, and any
//! other state fails immediately — the retry budget is never burned on a
//! state that cannot self-resolve.
//!
//! [`ConvergencePoller`] is the decision machine the shell steps with each
//! fresh observation; [`poll_trace`] runs the same machine over a recorded
//! sequence of observations and is proved equal to the mathematical
//! interpreter [`poll_spec`].

use vstd::prelude::*;
use crate::error::ServiceError;
use crate::state::ServiceState;

verus! {

/// Convergence is only ever driven toward a settled state.
pub open spec fn valid_target(target: ServiceState) -> bool {
    target == ServiceState::Running || target == ServiceState::Stopped
}

/// Whether `observed` is a pending phase consistent with progress toward
/// `target`.
pub open spec fn pending_toward(observed: ServiceState, target: ServiceState) -> bool {
    ||| (target == ServiceState::Running && observed == ServiceState::StartPending)
    ||| (target == ServiceState::Stopped && observed == ServiceState::StopPending)
}

/// What the poller asks of the shell after each observation.
#[derive(Clone, Copy, Debug, PartialEq, Eq)]
pub enum PollDecision {
    /// The observed state equals the target; the operation succeeded.
    Converged,
    /// A pending phase with budget left: sleep one interval and query again.
    Retry,
    /// Convergence failed; no further query is useful.
    Failed(ServiceError),
}

/// Drives a state query toward a target state under a bounded-retry policy.
///
/// The machine holds only the policy and the attempt counter; the shell
/// performs the actual queries and sleeps, feeding each observation to
/// [`ConvergencePoller::step`].
pub struct ConvergencePoller {
    /// The settled state being driven toward.
    pub target: ServiceState,
    /// How long the shell sleeps between retries, in milliseconds.
    pub interval_ms: u64,
    /// How many retries are allowed before the poller times out.
    pub max_attempts: u32,
    /// How many retries have been spent.
    pub attempts: u32,
}

impl ConvergencePoller {
    /// The poller targets a settled state and never overdraws its budget.
    pub open spec fn wf(&self) -> bool {
        valid_target(self.target) && self.attempts <= self.max_attempts
    }

    /// A fresh poller with an unspent attempt budget.
    pub fn new(target: ServiceState, interval_ms: u64, max_attempts: u32) -> (p: ConvergencePoller)
        requires
            valid_target(target),
        ensures
            p.target == target,
            p.interval_ms == interval_ms,
            p.max_attempts == max_attempts,
            p.attempts == 0,
            p.wf(),
    {
        ConvergencePoller { target, interval_ms, max_attempts, attempts: 0 }
    }

    /// Decides what one fresh observation means: the target converges, a
    /// pending phase earns a retry while the budget lasts and times out
    /// when it is spent, and any other state fails immediately with the
    /// observed state.
    pub fn step(&mut self, observed: ServiceState) -> (d: PollDecision)
        requires
            old(self).wf(),
        ensures
            final(self).wf(),
            final(self).target == old(self).target,
            final(self).interval_ms == old(self).interval_ms,
            final(self).max_attempts == old(self).max_attempts,
            observed == old(self).target
                ==> d == PollDecision::Converged && *final(self) == *old(self),
            pending_toward(observed, old(self).target) && old(self).attempts < old(self).max_attempts
                ==> d == PollDecision::Retry && final(self).attempts == old(self).attempts + 1,
            pending_toward(observed, old(self).target) && old(self).attempts == old(self).max_attempts
                ==> d == PollDecision::Failed(ServiceError::Timeout) && *final(self) == *old(self),
            observed != old(self).target && !pending_toward(observed, old(self).target)
                ==> d == PollDecision::Failed(ServiceError::UnexpectedState(observed))
                    && *final(self) == *old(self),
    {
        if observed == self.target {
            PollDecision::Converged
        } else if (self.target == ServiceState::Running && observed == ServiceState::StartPending)
            || (self.target == ServiceState::Stopped && observed == ServiceState::StopPending) {
            if self.attempts < self.max_attempts {
                self.attempts = self.attempts + 1;
                PollDecision::Retry
            } else {
                PollDecision::Failed(ServiceError::Timeout)
            }
        } else {
            PollDecision::Failed(ServiceError::UnexpectedState(observed))
        }
    }

    /// Decides what a failed status query means. While polling toward
    /// `Stopped` it is read as success — a service torn down far enough no
    /// longer answers; while polling toward `Running` it is a hard error,
    /// since a service that cannot report status while starting is not
    /// safely assumed running.
    pub fn on_query_failure(&self) -> (d: PollDecision)
        requires
            self.wf(),
        ensures
            self.target == ServiceState::Stopped ==> d == PollDecision::Converged,
            self.target == ServiceState::Running
                ==> d == PollDecision::Failed(ServiceError::NativeApiError),
    {
        if self.target == ServiceState::Stopped {
            PollDecision::Converged
        } else {
            PollDecision::Failed(ServiceError::NativeApiError)
        }
    }
}

/// The mathematical meaning of polling: over a sequence of observations and
/// a budget of `left` retries, the pair of how many queries are consumed
/// and how the poll ends. One query is consumed per observation read; an
/// empty sequence is an exhausted budget.
pub open spec fn poll_spec(
    target: ServiceState,
    obs: Seq<ServiceState>,
    left: nat,
) -> (nat, Result<(), ServiceError>)
    decreases obs.len(),
{
    if obs.len() == 0 {
        (0, Err(ServiceError::Timeout))
    } else if obs[0] == target {
        (1, Ok(()))
    } else if !pending_toward(obs[0], target) {
        (1, Err(ServiceError::UnexpectedState(obs[0])))
    } else if left == 0 {
        (1, Err(ServiceError::Timeout))
    } else {
        let (q, r) = poll_spec(target, obs.skip(1), (left - 1) as nat);
        ((q + 1) as nat, r)
    }
}

/// Polling consumes between one and `left + 1` queries, never more than
/// there are observations, and succeeds exactly by reading the target.
pub proof fn lemma_poll_spec_bounds(target: ServiceState, obs: Seq<ServiceState>, left: nat)
    requires
        obs.len() > left,
    ensures
        1 <= poll_spec(target, obs, left).0,
        poll_spec(target, obs, left).0 <= left + 1,
        poll_spec(target, obs, left).0 <= obs.len(),
        poll_spec(target, obs, left).1 is Ok
            ==> obs[poll_spec(target, obs, left).0 - 1] == target,
    decreases obs.len(),
{
    if obs[0] == target {
    } else if !pending_toward(obs[0], target) {
    } else if left == 0 {
    } else {
        lemma_poll_spec_bounds(target, obs.skip(1), (left - 1) as nat);
        let q = poll_spec(target, obs.skip(1), (left - 1) as nat).0 as int;
        assert(obs.skip(1)[q - 1] == obs[q]);
    }
}

/// Convergence bound: if every observation is a pending phase — the
/// backend never reports the target within the budget — the poll fails
/// with `Timeout` after consuming the full budget of `left + 1` queries,
/// never hanging unbounded.
pub proof fn lemma_poll_timeout(target: ServiceState, obs: Seq<ServiceState>, left: nat)
    requires
        obs.len() > left,
        forall|j: int| 0 <= j < obs.len() ==> pending_toward(#[trigger] obs[j], target),
    ensures
        poll_spec(target, obs, left)
            == (((left + 1) as nat, Err::<(), ServiceError>(ServiceError::Timeout))),
    decreases obs.len(),
{
    assert(pending_toward(obs[0], target));
    if left == 0 {
    } else {
        assert(forall|j: int|
            0 <= j < obs.skip(1).len() ==> pending_toward(#[trigger] obs.skip(1)[j], target));
        lemma_poll_timeout(target, obs.skip(1), (left - 1) as nat);
    }
}

/// Fail-fast: an observed state that is neither the target nor a pending
/// phase toward it fails immediately with `UnexpectedState`, consuming
/// exactly one query — whatever retry budget is left.
pub proof fn lemma_poll_fail_fast(target: ServiceState, obs: Seq<ServiceState>, left: nat)
    requires
        obs.len() > 0,
        obs[0] != target,
        !pending_toward(obs[0], target),
    ensures
        poll_spec(target, obs, left)
            == ((1 as nat, Err::<(), ServiceError>(ServiceError::UnexpectedState(obs[0])))),
{
}

/// Runs the convergence machine over a recorded sequence of observations:
/// the result and the number of queries consumed are exactly those of
/// [`poll_spec`]. The sequence must hold enough readings for a decision —
/// one more than the retry budget — which the bound on the consumed count
/// shows is always sufficient. No sleeping happens over a recorded trace.
pub fn poll_trace(
    target: ServiceState,
    observations: &Vec<ServiceState>,
    max_attempts: u32,
) -> (r: (usize, Result<(), ServiceError>))
    requires
        valid_target(target),
        observations@.len() > max_attempts as nat,
    ensures
        r.0 as nat == poll_spec(target, observations@, max_attempts as nat).0,
        r.1 == poll_spec(target, observations@, max_attempts as nat).1,
        1 <= r.0 && r.0 <= observations@.len(),
{
    let mut poller = ConvergencePoller::new(target, 0, max_attempts);
    let mut i: usize = 0;
    proof {
        assert(observations@.skip(0) =~= observations@);
    }
    loop
        invariant
            valid_target(target),
            observations@.len() > max_attempts as nat,
            poller.wf(),
            poller.target == target,
            poller.max_attempts == max_attempts,
            poller.attempts as int == i as int,
            i <= max_attempts,
            poll_spec(target, observations@, max_attempts as nat).0
                == i + poll_spec(target, observations@.skip(i as int), (max_attempts - i) as nat).0,
            poll_spec(target, observations@, max_attempts as nat).1
                == poll_spec(target, observations@.skip(i as int), (max_attempts - i) as nat).1,
        decreases observations@.len() - i,
    {
        let n = observations.len();
        let observed = observations[i];
        proof {
            assert(i < n);
            assert(observations@.skip(i as int)[0] == observations@[i as int]);
            assert(observations@.skip(i as int).skip(1) =~= observations@.skip(i as int + 1));
        }
        let d = poller.step(observed);
        match d {
            PollDecision::Converged => {
                return (i + 1, Ok(()));
            },
            PollDecision::Retry => {
                i = i + 1;
            },
            PollDecision::Failed(e) => {
                return (i + 1, Err(e));
            },
        }
    }
}

} // verus!
