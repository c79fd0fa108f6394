use ovpn3_orchestrator::retry::{run_retries, RetryDecision, RetryPolicy, RetrySpec};

#[test]
fn succeeds_on_last_permitted_attempt() {
    // Fails the first N-1 attempts, succeeds on the N-th: the success value
    // comes back and every permitted attempt was used.
    let outcomes: Vec<Result<u32, &'static str>> = vec![Err("down"), Err("down"), Ok(42)];
    let params = RetrySpec { max_attempts: 3, delay_ms: 2000 };
    let (result, attempts) = run_retries(&params, outcomes);
    assert_eq!(result, Ok(42));
    assert_eq!(attempts, 3);
}

#[test]
fn returns_last_error_and_stops_after_budget() {
    // N straight failures: the last error is surfaced and no further attempt
    // is made, even though the schedule would have succeeded next.
    let outcomes: Vec<Result<u32, &'static str>> =
        vec![Err("first"), Err("second"), Err("third"), Ok(7)];
    let params = RetrySpec { max_attempts: 3, delay_ms: 2000 };
    let (result, attempts) = run_retries(&params, outcomes);
    assert_eq!(result, Err("third"));
    assert_eq!(attempts, 3);
}

#[test]
fn immediate_success_takes_one_attempt() {
    let outcomes: Vec<Result<u32, &'static str>> = vec![Ok(1), Err("unused"), Err("unused")];
    let params = RetrySpec { max_attempts: 3, delay_ms: 2000 };
    let (result, attempts) = run_retries(&params, outcomes);
    assert_eq!(result, Ok(1));
    assert_eq!(attempts, 1);
}

#[test]
fn policy_decides_retry_then_give_up() {
    let mut policy = RetryPolicy::new(RetrySpec { max_attempts: 2, delay_ms: 2000 });
    assert_eq!(policy.on_failure(), RetryDecision::SleepAndRetry { delay_ms: 2000 });
    assert_eq!(policy.on_failure(), RetryDecision::GiveUp);
}

#[test]
fn single_attempt_budget_gives_up_at_once() {
    let mut policy = RetryPolicy::new(RetrySpec { max_attempts: 1, delay_ms: 500 });
    assert_eq!(policy.on_failure(), RetryDecision::GiveUp);
}

#[test]
fn call_site_budgets() {
    assert_eq!(RetrySpec::for_config_fetch(), RetrySpec { max_attempts: 5, delay_ms: 2000 });
    assert_eq!(RetrySpec::for_session_fetch(), RetrySpec { max_attempts: 3, delay_ms: 2000 });
    assert_eq!(RetrySpec::for_config_removal(), RetrySpec { max_attempts: 3, delay_ms: 2000 });
}
