use vstd::prelude::*;
use crate::dab::respond_success;
use crate::error::BridgeError;

verus! {

/// Answers a health check; nothing in the request plays a part.
pub fn process() -> (r: Result<String, BridgeError>)
    ensures
        r matches Ok(t) && t@ == "{\"status\":200}"@,
{
    respond_success()
}

} // verus!
