use lakesoul_metadata::retry::{RetryPolicy, RetryStep, DEFAULT_MAX_RETRY};

/// Runs a call against a store that fails `failures` times, then answers 17.
fn run_against_stub(policy: &RetryPolicy, failures: usize) -> (Result<i32, String>, usize) {
    let mut calls = 0usize;
    for attempt in 0..policy.max_retry {
        calls += 1;
        let outcome = if attempt < failures { Err(format!("failure {}", attempt)) } else { Ok(17) };
        match policy.step(attempt, outcome) {
            RetryStep::Done(r) => return (r, calls),
            RetryStep::Retry => continue,
        }
    }
    (Ok(0), calls)
}

#[test]
fn default_is_three_attempts() {
    assert_eq!(DEFAULT_MAX_RETRY, 3);
    assert_eq!(RetryPolicy::default().max_retry, 3);
    assert_eq!(RetryPolicy::new(5).max_retry, 5);
}

#[test]
fn success_short_circuits() {
    let p = RetryPolicy::new(3);
    assert_eq!(run_against_stub(&p, 0), (Ok(17), 1));
}

#[test]
fn fewer_failures_than_attempts_succeed() {
    let p = RetryPolicy::new(3);
    assert_eq!(run_against_stub(&p, 1), (Ok(17), 2));
    assert_eq!(run_against_stub(&p, 2), (Ok(17), 3));
}

#[test]
fn last_failure_is_surfaced() {
    let p = RetryPolicy::new(3);
    assert_eq!(run_against_stub(&p, 3), (Err("failure 2".to_string()), 3));
    assert_eq!(run_against_stub(&p, 10), (Err("failure 2".to_string()), 3));
}

#[test]
fn single_attempt_does_not_retry() {
    let p = RetryPolicy::new(1);
    assert!(matches!(p.step(0, Err::<i32, i32>(4)), RetryStep::Done(Err(4))));
    assert!(matches!(p.step(0, Ok::<i32, i32>(4)), RetryStep::Done(Ok(4))));
    let q = RetryPolicy::new(2);
    assert!(matches!(q.step(0, Err::<i32, i32>(4)), RetryStep::Retry));
    assert!(matches!(q.step(1, Err::<i32, i32>(4)), RetryStep::Done(Err(4))));
}
