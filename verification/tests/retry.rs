use ridit::retry::{run_with_retry, RetryPolicy, ScriptedOperation};

#[test]
fn listing_policy_is_two_tries_200ms() {
    let p = RetryPolicy::listing();
    assert_eq!(p.attempts, 2);
    assert_eq!(p.delay_ms, 200);
}

#[test]
fn image_policy_is_three_tries_200ms() {
    let p = RetryPolicy::image();
    assert_eq!(p.attempts, 3);
    assert_eq!(p.delay_ms, 200);
}

#[test]
fn should_retry_is_bounded_by_attempts() {
    let p = RetryPolicy { attempts: 3, delay_ms: 0 };
    assert!(p.should_retry(0));
    assert!(p.should_retry(2));
    assert!(!p.should_retry(3));
    assert!(!p.should_retry(4));
}

#[test]
fn constant_failure_spends_every_try_and_surfaces_the_last_error() {
    let mut op: ScriptedOperation<u32, u32> =
        ScriptedOperation::new(vec![Err(7), Err(8), Err(9), Err(10)]);
    let r = run_with_retry(&mut op, &RetryPolicy::image());
    // Exactly three tries were made, and the third error came back.
    assert_eq!(op.served, 3);
    assert_eq!(r, Err(9));
}

#[test]
fn success_cuts_the_tries_short() {
    let mut op: ScriptedOperation<u32, u32> =
        ScriptedOperation::new(vec![Err(1), Ok(42), Err(2)]);
    let r = run_with_retry(&mut op, &RetryPolicy::image());
    assert_eq!(op.served, 2);
    assert_eq!(r, Ok(42));
}

#[test]
fn immediate_success_takes_one_try() {
    let mut op: ScriptedOperation<u32, u32> = ScriptedOperation::new(vec![Ok(1), Ok(2)]);
    let r = run_with_retry(&mut op, &RetryPolicy::listing());
    assert_eq!(op.served, 1);
    assert_eq!(r, Ok(1));
}

#[test]
fn two_try_policy_gives_up_after_two_failures() {
    let mut op: ScriptedOperation<u32, u32> =
        ScriptedOperation::new(vec![Err(5), Err(6), Err(7)]);
    let r = run_with_retry(&mut op, &RetryPolicy::listing());
    assert_eq!(op.served, 2);
    assert_eq!(r, Err(6));
}
