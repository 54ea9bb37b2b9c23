//! Health-probe decision logic.
//!
//! The backend exposes a liveness endpoint on the loopback interface. The
//! surrounding application performs the actual HTTP request (a transport
//! error or timeout yields no status code at all) and hands the outcome to
//! the functions here, which decide what it means.

use vstd::prelude::*;

verus! {

/// Number of probe attempts the startup health wait makes.
pub const WAIT_MAX_ATTEMPTS: u32 = 30;

/// Milliseconds to suspend between startup health-wait attempts.
pub const WAIT_DELAY_MS: u64 = 500;

/// A probe succeeds exactly when the HTTP status is in the 2xx range.
pub open spec fn spec_status_is_success(status: u16) -> bool {
    200 <= status < 300
}

/// Whether an HTTP status code counts as a healthy answer.
pub fn status_is_success(status: u16) -> (r: bool)
    ensures
        r == spec_status_is_success(status),
{
    200 <= status && status < 300
}

/// A probe outcome is healthy exactly when a response arrived and its status
/// is in the success range; a transport error or timeout (`None`) is folded
/// into an unhealthy answer, never an error.
pub open spec fn spec_probe_is_healthy(response_status: Option<u16>) -> bool {
    match response_status {
        Some(status) => spec_status_is_success(status),
        None => false,
    }
}

/// Decide one probe: `response_status` is the HTTP status of the reply, or
/// `None` when the request failed outright.
pub fn probe_is_healthy(response_status: Option<u16>) -> (r: bool)
    ensures
        r == spec_probe_is_healthy(response_status),
{
    match response_status {
        Some(status) => status_is_success(status),
        None => false,
    }
}

/// Whether a bounded retry over the given probe outcomes reaches a success
/// within `max_attempts` attempts.
pub open spec fn spec_wait_reaches_healthy(probes: Seq<bool>, max_attempts: int) -> bool {
    exists|i: int| 0 <= i < max_attempts && i < probes.len() && probes[i]
}

/// The wait-until-healthy loop, decided over a recorded sequence of probe
/// outcomes: returns true on the first success, false once `max_attempts`
/// outcomes (or all available ones) are exhausted.
pub fn wait_until_healthy_outcome(probes: &Vec<bool>, max_attempts: u32) -> (r: bool)
    ensures
        r == spec_wait_reaches_healthy(probes@, max_attempts as int),
{
    let mut i: usize = 0;
    while i < probes.len() && i < max_attempts as usize
        invariant
            0 <= i <= probes.len(),
            i <= max_attempts,
            forall|j: int| 0 <= j < i ==> !probes@[j],
        decreases probes.len() - i,
    {
        if probes[i] {
            return true;
        }
        i = i + 1;
    }
    false
}

} // verus!
