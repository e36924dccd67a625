use kit_ilias_downloader::retry::{run_retry, AttemptOutcome, RetryState, RetryTrace};

use AttemptOutcome::{OtherError, Success, TransientReset};

#[test]
fn transient_failures_recover_within_the_bound() {
    // Two transient faults, then success — the caller sees the
    // success, and the warning fired exactly twice.
    let t = run_retry(&vec![TransientReset, TransientReset, Success]);
    assert_eq!(
        t,
        RetryTrace { outcome: Some(Success), attempts: 3, warnings: 2 }
    );
}

#[test]
fn transient_failures_exhaust_after_three_retries() {
    // Four transient faults surface the error after exactly
    // three retries, four attempts in all.
    let t = run_retry(&vec![TransientReset, TransientReset, TransientReset, TransientReset]);
    assert_eq!(
        t,
        RetryTrace { outcome: Some(TransientReset), attempts: 4, warnings: 3 }
    );
}

#[test]
fn third_retry_may_still_succeed() {
    let t = run_retry(&vec![TransientReset, TransientReset, TransientReset, Success]);
    assert_eq!(
        t,
        RetryTrace { outcome: Some(Success), attempts: 4, warnings: 3 }
    );
}

#[test]
fn other_errors_propagate_immediately() {
    let t = run_retry(&vec![TransientReset, OtherError, Success]);
    assert_eq!(
        t,
        RetryTrace { outcome: Some(OtherError), attempts: 2, warnings: 1 }
    );
}

#[test]
fn immediate_success_needs_one_attempt() {
    let t = run_retry(&vec![Success]);
    assert_eq!(
        t,
        RetryTrace { outcome: Some(Success), attempts: 1, warnings: 0 }
    );
}

#[test]
fn retry_state_counts_only_transient_faults() {
    let mut s = RetryState::new();
    assert!(!s.should_retry(false));
    assert!(s.should_retry(true));
    assert!(s.should_retry(true));
    assert!(s.should_retry(true));
    assert!(!s.should_retry(true));
    assert!(!s.should_retry(false));
}
