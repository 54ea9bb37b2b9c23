use narrative_assistant::probe::{
    probe_is_healthy, status_is_success, wait_until_healthy_outcome, WAIT_DELAY_MS,
    WAIT_MAX_ATTEMPTS,
};

/// Only the 2xx range counts as a healthy status.
#[test]
fn success_range_boundaries() {
    assert!(!status_is_success(199));
    assert!(status_is_success(200));
    assert!(status_is_success(204));
    assert!(status_is_success(299));
    assert!(!status_is_success(300));
    assert!(!status_is_success(404));
    assert!(!status_is_success(500));
}

/// A transport error or timeout is an unhealthy answer, never an error.
#[test]
fn transport_failure_is_unhealthy() {
    assert!(!probe_is_healthy(None));
    assert!(probe_is_healthy(Some(200)));
    assert!(!probe_is_healthy(Some(503)));
}

/// The bounded wait stops at the first success.
#[test]
fn wait_stops_at_first_success() {
    assert!(wait_until_healthy_outcome(&vec![true], 30));
    assert!(wait_until_healthy_outcome(&vec![false, false, true], 30));
    assert!(wait_until_healthy_outcome(&vec![false, true, false], 30));
}

/// The bounded wait gives up when every attempt fails or none is allowed.
#[test]
fn wait_gives_up_when_exhausted() {
    assert!(!wait_until_healthy_outcome(&vec![], 30));
    assert!(!wait_until_healthy_outcome(&vec![false, false, false], 30));
    assert!(!wait_until_healthy_outcome(&vec![true], 0));
}

/// A success past the attempt budget is never reached.
#[test]
fn wait_respects_attempt_budget() {
    let mut probes = vec![false; 30];
    probes.push(true);
    assert!(!wait_until_healthy_outcome(&probes, 30));
    assert!(wait_until_healthy_outcome(&probes, 31));
}

/// The startup wait budget: 30 attempts, half a second apart.
#[test]
fn startup_wait_budget() {
    assert_eq!(WAIT_MAX_ATTEMPTS, 30);
    assert_eq!(WAIT_DELAY_MS, 500);
}
