//! The liveness probe.

use super::response::alive_response;
use super::response::Response;
use vstd::prelude::*;

verus! {

/// Answers a liveness probe: 200 with an empty body, whoever asks.
pub fn check_action() -> (response: Response)
    ensures
        response@ == alive_response(),
{
    Response::alive()
}

} // verus!
