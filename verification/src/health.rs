//! Interpretation of the single liveness probe against the worker's HTTP
//! endpoint. The caller issues one GET to the fixed local endpoint and hands
//! over the status code it got, or nothing when the request itself failed;
//! the interpretation is total, so the probe never surfaces an error.

use vstd::prelude::*;

verus! {

/// The endpoint probed for liveness.
pub fn health_endpoint() -> (r: &'static str)
    ensures
        r@ == "http://localhost:8000/"@,
{
    "http://localhost:8000/"
}

/// Whether an HTTP status code counts as success.
pub open spec fn is_success_status(status: u16) -> bool {
    200 <= status < 300
}

/// Maps the probe's outcome to reachability. A missing outcome — connection
/// failure or timeout — means not reachable; a response counts only with a
/// success status. Every outcome maps to a boolean; no outcome raises an
/// error.
pub fn interpret_probe(outcome: Option<u16>) -> (r: bool)
    ensures
        r <==> (outcome matches Some(status) && is_success_status(status)),
        outcome is None ==> !r,
{
    match outcome {
        Some(status) => 200 <= status && status < 300,
        None => false,
    }
}

} // verus!
