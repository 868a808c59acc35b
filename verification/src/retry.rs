//! The retry contract of the put operation.
//!
//! Put is the only operation the dispatcher retries. After each failed attempt
//! the policy is consulted with the attempt index (starting at 1) and the
//! classified error; it answers "stop, surface this error" or "wait, then run
//! the next attempt". The dispatcher enforces no attempt bound of its own: the
//! policy is the sole authority on the retry budget. Retries of one call are
//! strictly sequential, and the error of the final attempt is surfaced
//! verbatim.

use vstd::prelude::*;

use crate::error::VssError;

verus! {

/// What a retry policy tells the dispatcher to do after a failed attempt.
#[derive(Clone, Copy, Debug, PartialEq, Eq, Structural)]
pub enum RetryDecision {
    /// Surface the error of this attempt to the caller.
    Stop,
    /// Wait this many milliseconds, then run the next attempt.
    RetryAfter(u64),
}

/// A pluggable retry policy, supplied by the caller at client construction.
///
/// A policy takes itself by shared reference and promises a result that is a
/// function of its state and arguments alone, so one policy instance is safe
/// to consult from arbitrarily many concurrent calls.
pub trait RetryPolicy {
    /// What `decide` returns, as a function of the policy's state, the attempt
    /// index and the error of that attempt.
    spec fn decide_spec(&self, attempt: u32, error: VssError) -> RetryDecision;

    /// Decides whether the dispatcher retries after the given failed attempt.
    fn decide(&self, attempt: u32, error: &VssError) -> (r: RetryDecision)
        ensures
            r == self.decide_spec(attempt, *error),
    ;
}

/// The default policy: retries server errors only, waiting twice as long
/// before each further attempt, and gives up once `max_attempts` attempts have
/// run.
pub struct ExponentialBackoffRetryPolicy {
    /// The wait before the second attempt, in milliseconds.
    pub base_delay_ms: u64,
    /// The largest number of attempts the policy allows, the first one included.
    pub max_attempts: u32,
}

/// How many doublings of the base delay the given attempt waits: attempt 1
/// waits the base delay, and each further attempt doubles it, up to the width
/// of the delay type.
pub open spec fn backoff_shift(attempt: u32) -> u64 {
    if attempt <= 1 {
        0
    } else if attempt <= 64 {
        (attempt - 1) as u64
    } else {
        63
    }
}

/// The wait in milliseconds before the attempt after `attempt`, saturating at
/// the largest representable wait.
pub open spec fn backoff_delay(base_delay_ms: u64, attempt: u32) -> u64 {
    let factor = 1u64 << backoff_shift(attempt);
    if base_delay_ms * factor > u64::MAX {
        u64::MAX
    } else {
        (base_delay_ms * factor) as u64
    }
}

impl ExponentialBackoffRetryPolicy {
    /// The wait this policy asks for after the given failed attempt.
    fn delay_for(&self, attempt: u32) -> (d: u64)
        ensures
            d == backoff_delay(self.base_delay_ms, attempt),
    {
        let shift: u64 = if attempt <= 1 {
            0
        } else if attempt <= 64 {
            (attempt - 1) as u64
        } else {
            63
        };
        let factor: u64 = 1u64 << shift;
        match self.base_delay_ms.checked_mul(factor) {
            Some(d) => d,
            None => u64::MAX,
        }
    }
}

impl RetryPolicy for ExponentialBackoffRetryPolicy {
    open spec fn decide_spec(&self, attempt: u32, error: VssError) -> RetryDecision {
        if error is ServerError && attempt < self.max_attempts {
            RetryDecision::RetryAfter(backoff_delay(self.base_delay_ms, attempt))
        } else {
            RetryDecision::Stop
        }
    }

    fn decide(&self, attempt: u32, error: &VssError) -> (r: RetryDecision) {
        match error {
            VssError::ServerError { .. } => {
                if attempt < self.max_attempts {
                    RetryDecision::RetryAfter(self.delay_for(attempt))
                } else {
                    RetryDecision::Stop
                }
            },
            _ => RetryDecision::Stop,
        }
    }
}

/// What the retry loop does with the outcome of one attempt: come to rest on
/// it, or wait and run another attempt.
#[derive(Clone, Copy, Debug, PartialEq, Eq, Structural)]
pub enum StepVerdict {
    /// Surface this outcome (a success, or an error the policy stops on).
    Resolve,
    /// Wait this many milliseconds, then run the next attempt.
    Backoff(u64),
}

/// What `attempt_verdict` returns: a success resolves at once; an error
/// resolves or backs off as the policy decides.
pub open spec fn verdict_of<T, R: RetryPolicy>(
    policy: R,
    attempt: u32,
    outcome: Result<T, VssError>,
) -> StepVerdict {
    match outcome {
        Ok(_) => StepVerdict::Resolve,
        Err(e) => match policy.decide_spec(attempt, e) {
            RetryDecision::Stop => StepVerdict::Resolve,
            RetryDecision::RetryAfter(d) => StepVerdict::Backoff(d),
        },
    }
}

/// The single decision step of the put retry loop: given the outcome of the
/// attempt with index `attempt` (the first attempt has index 1), says whether
/// that outcome is surfaced or another attempt runs after a wait.
pub fn attempt_verdict<T, R: RetryPolicy>(
    policy: &R,
    attempt: u32,
    outcome: &Result<T, VssError>,
) -> (v: StepVerdict)
    ensures
        v == verdict_of(*policy, attempt, *outcome),
{
    match outcome {
        Ok(_) => StepVerdict::Resolve,
        Err(e) => match policy.decide(attempt, e) {
            RetryDecision::Stop => StepVerdict::Resolve,
            RetryDecision::RetryAfter(d) => StepVerdict::Backoff(d),
        },
    }
}

/// Holds when an attempt sequence driven by `policy` comes to rest at index
/// `i`: the attempt succeeded, or the policy stops on its error.
pub open spec fn resolves_at<T, R: RetryPolicy>(
    policy: R,
    outcomes: Seq<Result<T, VssError>>,
    i: int,
) -> bool {
    outcomes[i] is Ok || policy.decide_spec((i + 1) as u32, outcomes[i]->Err_0) is Stop
}

/// Runs the retry loop of the put operation over a fixed sequence of attempt
/// outcomes, one per transport call, in order. The loop surfaces the outcome
/// of the first attempt that succeeds or whose error the policy stops on, and
/// reports how many attempts ran: retries are strictly sequential, every
/// earlier attempt was retried, and the surfaced outcome is the resolved
/// attempt's outcome verbatim. The sequence must contain such a resting point;
/// under a policy that never stops, the loop would consume attempts forever.
pub fn run_attempts<T, R: RetryPolicy>(
    policy: &R,
    outcomes: Vec<Result<T, VssError>>,
) -> (r: (Result<T, VssError>, usize))
    requires
        outcomes@.len() <= u32::MAX,
        exists|k: int| 0 <= k < outcomes@.len() && resolves_at(*policy, outcomes@, k),
    ensures
        1 <= r.1 <= outcomes@.len(),
        resolves_at(*policy, outcomes@, r.1 - 1),
        forall|j: int| 0 <= j < r.1 - 1 ==> !resolves_at(*policy, outcomes@, j),
        r.0 == outcomes@[r.1 - 1],
{
    let ghost all = outcomes@;
    let mut pending = outcomes;
    let mut i: usize = 0;
    while i < pending.len()
        invariant
            pending@ == all,
            all == outcomes@,
            0 <= i <= all.len() <= u32::MAX,
            forall|j: int| 0 <= j < i ==> !resolves_at(*policy, all, j),
            exists|k: int| 0 <= k < all.len() && resolves_at(*policy, all, k),
        decreases all.len() - i,
    {
        let v = attempt_verdict(policy, (i as u32) + 1, &pending[i]);
        match v {
            StepVerdict::Resolve => {
                let out = pending.remove(i);
                return (out, i + 1);
            },
            StepVerdict::Backoff(_) => {
                i = i + 1;
            },
        }
    }
    proof {
        assert(false);
    }
    vstd::pervasive::unreached()
}

/// Law: a put against a transport that succeeds at once makes exactly one
/// transport call, whatever the policy. `calls` may be the attempt count of
/// any run of the loop over `outcomes` (the count `run_attempts` returns).
pub proof fn lemma_single_call_on_success<T, R: RetryPolicy>(
    policy: R,
    outcomes: Seq<Result<T, VssError>>,
    calls: int,
)
    requires
        outcomes.len() > 0,
        outcomes[0] is Ok,
        1 <= calls <= outcomes.len(),
        resolves_at(policy, outcomes, calls - 1),
        forall|j: int| 0 <= j < calls - 1 ==> !resolves_at(policy, outcomes, j),
    ensures
        calls == 1,
{
    assert(resolves_at(policy, outcomes, 0));
}

/// Law: under a policy that retries exactly the server errors, a put whose
/// attempts fail with a server error `k` times and then with a client error
/// makes exactly `k + 1` transport calls and surfaces the client error of the
/// last attempt verbatim. `calls` may be the attempt count of any run of the
/// loop over `outcomes`.
pub proof fn lemma_server_errors_then_client_error<T, R: RetryPolicy>(
    policy: R,
    outcomes: Seq<Result<T, VssError>>,
    k: int,
    calls: int,
)
    requires
        forall|a: u32, e: VssError| #[trigger] policy.decide_spec(a, e) is Stop <==> !(e is ServerError),
        0 <= k,
        outcomes.len() == k + 1,
        forall|j: int| 0 <= j < k ==> #[trigger] outcomes[j] is Err && outcomes[j]->Err_0 is ServerError,
        outcomes[k] is Err && outcomes[k]->Err_0 is ClientError,
        1 <= calls <= outcomes.len(),
        resolves_at(policy, outcomes, calls - 1),
        forall|j: int| 0 <= j < calls - 1 ==> !resolves_at(policy, outcomes, j),
    ensures
        calls == k + 1,
{
    assert forall|j: int| 0 <= j < k implies !resolves_at(policy, outcomes, j) by {
        assert(outcomes[j] is Err && outcomes[j]->Err_0 is ServerError);
        assert(!(policy.decide_spec((j + 1) as u32, outcomes[j]->Err_0) is Stop));
    }
    assert(resolves_at(policy, outcomes, k));
}

/// Law: the loop's resting point is a function of the policy and the attempt
/// outcomes alone, so concurrent put calls, each with its own attempt
/// sequence, cannot interfere: two runs over the same outcomes under the same
/// policy make the same number of calls, and hence surface the same attempt's
/// outcome.
pub proof fn lemma_resolution_point_unique<T, R: RetryPolicy>(
    policy: R,
    outcomes: Seq<Result<T, VssError>>,
    calls1: int,
    calls2: int,
)
    requires
        1 <= calls1 <= outcomes.len(),
        resolves_at(policy, outcomes, calls1 - 1),
        forall|j: int| 0 <= j < calls1 - 1 ==> !resolves_at(policy, outcomes, j),
        1 <= calls2 <= outcomes.len(),
        resolves_at(policy, outcomes, calls2 - 1),
        forall|j: int| 0 <= j < calls2 - 1 ==> !resolves_at(policy, outcomes, j),
    ensures
        calls1 == calls2,
{
}

} // verus!
