//! Tests of the batch-transfer session decisions.

use bookmarks_movement::driver::MultiDriver;

#[test]
fn tokens_are_assigned_in_order() {
    let mut driver: MultiDriver<&str> = MultiDriver::with_capacity(4);
    assert_eq!(driver.add("a"), 0);
    assert_eq!(driver.add("b"), 1);
    assert_eq!(driver.add("c"), 2);
}

#[test]
fn all_successes_hand_back_the_handles() {
    let mut driver: MultiDriver<&str> = MultiDriver::with_capacity(2);
    driver.add("a");
    driver.add("b");
    driver.record_completion(0, Ok(()));
    driver.record_completion(1, Ok(()));
    let handles = driver.finish().into_result().expect("no failures");
    assert_eq!(handles, vec!["a", "b"]);
}

#[test]
fn failures_are_reported_with_token_and_message() {
    let mut driver: MultiDriver<&str> = MultiDriver::with_capacity(2);
    driver.add("a");
    driver.add("b");
    driver.record_completion(0, Err("connection reset".to_string()));
    driver.record_completion(1, Err("timed out".to_string()));
    let msg = driver.finish().into_result().unwrap_err();
    assert_eq!(
        msg,
        "The following transfers failed:\n0: connection reset\n1: timed out\n"
    );
}

#[test]
fn fail_early_stops_at_the_first_failure() {
    let mut driver: MultiDriver<&str> = MultiDriver::with_capacity(2);
    driver.add("a");
    driver.add("b");
    driver.fail_early(true);
    assert!(!driver.should_stop(2));
    driver.record_completion(0, Err("boom".to_string()));
    assert!(driver.should_stop(1));
}

#[test]
fn without_fail_early_the_session_runs_to_completion() {
    let mut driver: MultiDriver<&str> = MultiDriver::with_capacity(2);
    driver.add("a");
    driver.add("b");
    driver.record_completion(0, Err("boom".to_string()));
    assert!(!driver.should_stop(1));
    assert!(driver.should_stop(0));
}
