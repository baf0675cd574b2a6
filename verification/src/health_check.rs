use crate::router::OK;
use vstd::prelude::*;

verus! {

/// Answers a health check: the service is up, and says so with success.
pub fn health_check() -> (status: u16)
    ensures
        status == OK,
{
    OK
}

} // verus!
