use acemcp::retry::{message_is_retryable, RetryDecision, RetryPolicy, RetryState};

#[test]
fn upload_policy_is_three_attempts_from_one_second() {
    assert_eq!(RetryPolicy::upload(), RetryPolicy { max_attempts: 3, base_delay_ms: 1000 });
}

#[test]
fn search_policy_is_three_attempts_from_two_seconds() {
    assert_eq!(RetryPolicy::search(), RetryPolicy { max_attempts: 3, base_delay_ms: 2000 });
}

#[test]
fn delay_doubles_with_each_failure() {
    let policy = RetryPolicy::upload();
    assert_eq!(policy.backoff(1), 1000);
    assert_eq!(policy.backoff(2), 2000);
    assert_eq!(policy.backoff(3), 4000);
    assert_eq!(policy.backoff(11), 1_024_000);
    let search = RetryPolicy::search();
    assert_eq!(search.backoff(1), 2000);
    assert_eq!(search.backoff(2), 4000);
}

#[test]
fn delay_stops_at_the_largest_number() {
    let policy = RetryPolicy { max_attempts: 100, base_delay_ms: u64::MAX / 2 + 1 };
    assert_eq!(policy.backoff(1), u64::MAX / 2 + 1);
    assert_eq!(policy.backoff(2), u64::MAX);
    assert_eq!(policy.backoff(3), u64::MAX);
    let slow = RetryPolicy { max_attempts: 100, base_delay_ms: 1 };
    assert_eq!(slow.backoff(64), 1u64 << 63);
    assert_eq!(slow.backoff(65), u64::MAX);
    assert_eq!(slow.backoff(90), u64::MAX);
    let none = RetryPolicy { max_attempts: 100, base_delay_ms: 0 };
    assert_eq!(none.backoff(80), 0);
}

#[test]
fn transient_failures_are_told_by_their_message() {
    assert!(message_is_retryable("operation timeout"));
    assert!(message_is_retryable("connection refused"));
    assert!(message_is_retryable("network is unreachable"));
    assert!(message_is_retryable("temporary failure in name resolution"));
    assert!(message_is_retryable("error sending request: connection closed before message completed"));
}

#[test]
fn other_failures_are_not_tried_again() {
    assert!(!message_is_retryable("HTTP 500 Internal Server Error"));
    assert!(!message_is_retryable("HTTP 401 Unauthorized invalid token"));
    assert!(!message_is_retryable("Timeout"));
    assert!(!message_is_retryable("timed out"));
    assert!(!message_is_retryable(""));
}

#[test]
fn transient_failure_is_tried_again_after_the_delay() {
    let policy = RetryPolicy::upload();
    assert_eq!(policy.decide(1, "connection reset"), RetryDecision::RetryAfter { delay_ms: 1000 });
    assert_eq!(policy.decide(2, "connection reset"), RetryDecision::RetryAfter { delay_ms: 2000 });
    let search = RetryPolicy::search();
    assert_eq!(search.decide(1, "timeout"), RetryDecision::RetryAfter { delay_ms: 2000 });
    assert_eq!(search.decide(2, "timeout"), RetryDecision::RetryAfter { delay_ms: 4000 });
}

#[test]
fn last_attempt_is_not_followed_by_another() {
    let policy = RetryPolicy::upload();
    assert_eq!(policy.decide(3, "connection reset"), RetryDecision::GiveUp);
    assert_eq!(policy.decide(4, "connection reset"), RetryDecision::GiveUp);
}

#[test]
fn failure_that_is_not_transient_ends_the_request_at_once() {
    let policy = RetryPolicy::upload();
    assert_eq!(policy.decide(1, "HTTP 500 Internal Server Error"), RetryDecision::GiveUp);
}

#[test]
fn state_counts_failures_until_the_policy_gives_up() {
    let mut state = RetryState::new(RetryPolicy::upload());
    assert!(state.may_attempt());
    assert_eq!(state.on_failure("timeout"), RetryDecision::RetryAfter { delay_ms: 1000 });
    assert_eq!(state.failures, 1);
    assert!(state.may_attempt());
    assert_eq!(state.on_failure("timeout"), RetryDecision::RetryAfter { delay_ms: 2000 });
    assert!(state.may_attempt());
    assert_eq!(state.on_failure("timeout"), RetryDecision::GiveUp);
    assert_eq!(state.failures, 3);
    assert!(!state.may_attempt());
}

#[test]
fn policy_without_attempts_allows_none() {
    let state = RetryState::new(RetryPolicy { max_attempts: 0, base_delay_ms: 1000 });
    assert!(!state.may_attempt());
}
