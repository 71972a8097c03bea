use lildbsh::retry::{ConnectionAttempt, RetryDecision, MAX_ATTEMPTS, RETRY_DELAY_SECS};

#[test]
fn first_attempt_is_number_one() {
    let a = ConnectionAttempt::first();
    assert_eq!(a.attempt, 1);
    assert!(a.last_error.is_none());
}

#[test]
fn three_failures_give_up_after_three_attempts_and_two_pauses() {
    let mut attempt = ConnectionAttempt::first();
    let mut attempts_made: u32 = 1;
    let mut waited: u64 = 0;
    loop {
        match attempt.after_failure(format!("unreachable {}", attempts_made)) {
            RetryDecision::Retry { next, delay_secs } => {
                assert!(delay_secs >= 1);
                waited += delay_secs;
                attempts_made += 1;
                assert_eq!(next.attempt, attempts_made);
                attempt = next;
            }
            RetryDecision::GiveUp { attempts, last_error } => {
                assert_eq!(attempts, 3);
                assert_eq!(last_error, "unreachable 3");
                break;
            }
        }
    }
    assert_eq!(attempts_made, MAX_ATTEMPTS);
    assert_eq!(attempts_made, 3);
    assert!(waited >= 2);
    assert_eq!(waited, 2 * RETRY_DELAY_SECS);
}

#[test]
fn retry_keeps_the_last_error() {
    match ConnectionAttempt::first().after_failure("refused".to_string()) {
        RetryDecision::Retry { next, delay_secs } => {
            assert_eq!(delay_secs, 1);
            assert_eq!(next.attempt, 2);
            assert_eq!(next.last_error, Some("refused".to_string()));
        }
        RetryDecision::GiveUp { .. } => panic!("the first failure is retried"),
    }
}
