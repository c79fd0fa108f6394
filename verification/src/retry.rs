//! Bounded fixed-delay retry of fallible remote operations.
//!
//! Every unreliable call site shares one combinator: an operation is attempted
//! up to a fixed number of times, with the same pause between consecutive
//! attempts, and the last error is surfaced once the budget is spent.  No
//! jitter or exponential backoff is applied.  The pauses themselves are taken
//! by the unverified runner; the decisions — whether a failed attempt may be
//! repeated — are taken here.

use vstd::prelude::*;

verus! {

/// The retry budget supplied per call site: how many attempts an operation is
/// allowed in total, and the fixed pause between consecutive attempts.
#[derive(Clone, Copy, Debug, PartialEq, Eq, Structural)]
pub struct RetrySpec {
    pub max_attempts: u32,
    pub delay_ms: u64,
}

impl RetrySpec {
    /// A budget is usable only if it permits at least one attempt.
    pub open spec fn valid(self) -> bool {
        self.max_attempts >= 1
    }

    /// The budget for listing configurations: five attempts, two seconds apart.
    pub fn for_config_fetch() -> (s: RetrySpec)
        ensures
            s == (RetrySpec { max_attempts: 5, delay_ms: 2000 }),
            s.valid(),
    {
        RetrySpec { max_attempts: 5, delay_ms: 2000 }
    }

    /// The budget for listing sessions: three attempts, two seconds apart.
    pub fn for_session_fetch() -> (s: RetrySpec)
        ensures
            s == (RetrySpec { max_attempts: 3, delay_ms: 2000 }),
            s.valid(),
    {
        RetrySpec { max_attempts: 3, delay_ms: 2000 }
    }

    /// The budget for removing a configuration: three attempts, two seconds
    /// apart.  Removal must be tolerant of "already removed", since every
    /// attempt after the first may find the object gone.
    pub fn for_config_removal() -> (s: RetrySpec)
        ensures
            s == (RetrySpec { max_attempts: 3, delay_ms: 2000 }),
            s.valid(),
    {
        RetrySpec { max_attempts: 3, delay_ms: 2000 }
    }
}

/// What a failed attempt means for the operation as a whole.
#[derive(Clone, Copy, Debug, PartialEq, Eq, Structural)]
pub enum RetryDecision {
    /// The budget is not spent: pause for `delay_ms`, then call again.
    SleepAndRetry { delay_ms: u64 },
    /// The budget is spent: report the last error, make no further call.
    GiveUp,
}

/// The state of one retried operation: its budget and how many attempts have
/// already failed.  A runner makes the remote call itself, reports each
/// failure through [`RetryPolicy::on_failure`], and obeys the decision.
#[derive(Clone, Copy, Debug)]
pub struct RetryPolicy {
    pub params: RetrySpec,
    pub attempts_used: u32,
}

impl RetryPolicy {
    /// The attempt count never exceeds the budget.
    pub open spec fn wf(self) -> bool {
        self.params.valid() && self.attempts_used <= self.params.max_attempts
    }

    pub fn new(params: RetrySpec) -> (p: RetryPolicy)
        requires
            params.valid(),
        ensures
            p.wf(),
            p.params == params,
            p.attempts_used == 0,
    {
        RetryPolicy { params, attempts_used: 0 }
    }

    /// Record one failed attempt and decide whether the operation may be
    /// tried again.  The decision is to retry exactly as long as the budget
    /// still has attempts left.
    pub fn on_failure(&mut self) -> (d: RetryDecision)
        requires
            old(self).wf(),
            old(self).attempts_used < old(self).params.max_attempts,
        ensures
            final(self).wf(),
            final(self).params == old(self).params,
            final(self).attempts_used == old(self).attempts_used + 1,
            (d == (RetryDecision::SleepAndRetry { delay_ms: old(self).params.delay_ms }))
                <==> final(self).attempts_used < final(self).params.max_attempts,
            (d == RetryDecision::GiveUp)
                <==> final(self).attempts_used == final(self).params.max_attempts,
    {
        self.attempts_used = self.attempts_used + 1;
        if self.attempts_used < self.params.max_attempts {
            RetryDecision::SleepAndRetry { delay_ms: self.params.delay_ms }
        } else {
            RetryDecision::GiveUp
        }
    }
}

/// Drives one retried operation over a prescribed schedule of attempt
/// outcomes — attempt `i` yields `outcomes[i]` — and returns the final result
/// together with the number of attempts actually made.
///
/// The schedule stands for a fault injector around a deterministic operation;
/// a live runner makes each call itself, pausing for `params.delay_ms`
/// between attempts, but takes the same decisions through [`RetryPolicy`].
///
/// The contract pins the policy down: every attempt before the last one
/// failed, the result is the outcome of the last attempt made, the operation
/// stops early only on success, and it succeeds exactly when one of the first
/// `max_attempts` outcomes is a success.  In particular, after
/// `max_attempts` straight failures the last error is returned and no
/// further attempt is made.
pub fn run_retries<T, E>(params: &RetrySpec, outcomes: Vec<Result<T, E>>) -> (r: (
    Result<T, E>,
    u32,
))
    requires
        params.valid(),
        outcomes@.len() >= params.max_attempts,
    ensures
        1 <= r.1 <= params.max_attempts,
        forall|i: int| 0 <= i < r.1 - 1 ==> outcomes@[i] is Err,
        r.0 == outcomes@[r.1 - 1],
        r.1 < params.max_attempts ==> r.0 is Ok,
        (r.0 is Ok) <==> (exists|i: int|
            0 <= i < params.max_attempts && outcomes@[i] is Ok),
{
    let ghost schedule = outcomes@;
    let mut remaining = outcomes;
    let mut policy = RetryPolicy::new(*params);
    let mut attempts: u32 = 0;
    #[verifier::loop_isolation(false)]
    loop
        invariant
            params.valid(),
            schedule.len() >= params.max_attempts,
            policy.wf(),
            policy.params == *params,
            policy.attempts_used == attempts,
            attempts < params.max_attempts,
            remaining@.len() == schedule.len() - attempts,
            forall|j: int|
                0 <= j < remaining@.len() ==> remaining@[j] == schedule[attempts + j],
            forall|i: int| 0 <= i < attempts ==> schedule[i] is Err,
        decreases params.max_attempts - attempts,
    {
        let ghost before = remaining@;
        let outcome = remaining.remove(0);
        proof {
            assert(outcome == schedule[attempts as int]);
            assert forall|j: int| 0 <= j < remaining@.len() implies remaining@[j]
                == schedule[attempts + 1 + j] by {
                assert(remaining@[j] == before.remove(0)[j]);
                assert(before.remove(0)[j] == before[j + 1]);
            }
        }
        attempts = attempts + 1;
        match outcome {
            Ok(value) => {
                return (Ok(value), attempts);
            },
            Err(error) => {
                match policy.on_failure() {
                    RetryDecision::SleepAndRetry { delay_ms: _ } => {
                        // A live runner pauses here before the next attempt.
                    },
                    RetryDecision::GiveUp => {
                        proof {
                            assert(forall|i: int|
                                0 <= i < params.max_attempts ==> schedule[i] is Err);
                        }
                        return (Err(error), attempts);
                    },
                }
            },
        }
    }
}

} // verus!
