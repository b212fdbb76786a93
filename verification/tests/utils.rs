use webreg_monitor::config::{DEFAULT_RETRY_ATTEMPTS, DEFAULT_RETRY_DELAY};
use webreg_monitor::utils::{
    after_failure, clone_strings, decimal, format_duration, get_retry_strategy, CallError,
    RetryDecision, MAX_RETRY_DELAY_MS,
};

#[test]
fn format_duration_examples() {
    assert_eq!(format_duration(0), "0h 0m 0s");
    assert_eq!(format_duration(59), "0h 0m 59s");
    assert_eq!(format_duration(60), "0h 1m 0s");
    assert_eq!(format_duration(3661), "1h 1m 1s");
    assert_eq!(format_duration(86399), "23h 59m 59s");
    assert_eq!(format_duration(360000), "100h 0m 0s");
    assert_eq!(format_duration(u64::MAX), "5124095576030431h 0m 15s");
}

#[test]
fn decimal_examples() {
    assert_eq!(decimal(0), "0");
    assert_eq!(decimal(7), "7");
    assert_eq!(decimal(10), "10");
    assert_eq!(decimal(1234567890), "1234567890");
    assert_eq!(decimal(u64::MAX), "18446744073709551615");
}

#[test]
fn retry_strategy_is_bounded() {
    assert_eq!(DEFAULT_RETRY_ATTEMPTS, 3);
    assert_eq!(DEFAULT_RETRY_DELAY, 1000);
    for _ in 0..50 {
        let delays = get_retry_strategy();
        assert_eq!(delays.len(), 2);
        assert!(delays[0] <= 1000);
        assert!(delays[1] <= 2000);
        assert!(delays.iter().all(|d| *d <= MAX_RETRY_DELAY_MS));
    }
}

#[test]
fn retry_strategy_is_jittered() {
    let runs: Vec<Vec<u64>> = (0..8).map(|_| get_retry_strategy()).collect();
    assert!(runs.iter().any(|r| r != &runs[0]));
    // the second pause follows a doubled delay: some run has it above the first's bound
    let doubled = (0..200).map(|_| get_retry_strategy()).any(|r| r[1] > 1000);
    assert!(doubled);
}

#[test]
fn whole_schedule_makes_three_attempts() {
    let delays = get_retry_strategy();
    let mut attempts: u32 = 0;
    loop {
        attempts += 1;
        match after_failure(&delays, attempts, CallError::Transient) {
            RetryDecision::RetryAfter(_) => {}
            RetryDecision::GiveUp => break,
        }
    }
    assert_eq!(attempts, 3);
    assert_eq!(delays.iter().count() + 1, 3);
}

#[test]
fn transient_failures_are_retried_twice() {
    let delays = vec![1500, 40_000, 50_000];
    assert_eq!(after_failure(&delays, 1, CallError::Transient), RetryDecision::RetryAfter(1500));
    assert_eq!(after_failure(&delays, 2, CallError::Transient), RetryDecision::RetryAfter(40_000));
    assert_eq!(after_failure(&delays, 3, CallError::Transient), RetryDecision::GiveUp);
    assert_eq!(after_failure(&delays, 4, CallError::Transient), RetryDecision::GiveUp);
    assert_eq!(after_failure(&delays, u32::MAX, CallError::Transient), RetryDecision::GiveUp);
    assert_eq!(after_failure(&delays, 0, CallError::Transient), RetryDecision::GiveUp);
}

#[test]
fn fatal_failures_are_not_retried() {
    let delays = vec![1500, 40_000, 50_000];
    assert_eq!(after_failure(&delays, 1, CallError::Fatal), RetryDecision::GiveUp);
    assert_eq!(after_failure(&delays, 2, CallError::Fatal), RetryDecision::GiveUp);
}

#[test]
fn short_schedule_ends_the_retries() {
    let delays = vec![7];
    assert_eq!(after_failure(&delays, 1, CallError::Transient), RetryDecision::RetryAfter(7));
    assert_eq!(after_failure(&delays, 2, CallError::Transient), RetryDecision::GiveUp);
    assert_eq!(after_failure(&Vec::new(), 1, CallError::Transient), RetryDecision::GiveUp);
}

#[test]
fn strings_are_copied() {
    let v = vec![String::from("a"), String::from("")];
    assert_eq!(clone_strings(&v), v);
}
