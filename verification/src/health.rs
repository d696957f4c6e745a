use vstd::prelude::*;

use crate::error::DbFailure;

verus! {

/// The answer of the liveness probe: always `200 Ok`.
pub fn health_status() -> (r: (u16, &'static str))
    ensures
        r.0 == 200,
        r.1@ == "Ok"@,
{
    (200, "Ok")
}

/// The answer of the readiness probe, from whether a trivial query
/// reached the database: `200 ready` or `503 db unavailable`.
pub fn readiness_status(probe: Result<(), DbFailure>) -> (r: (u16, &'static str))
    ensures
        probe is Ok ==> r.0 == 200 && r.1@ == "ready"@,
        probe is Err ==> r.0 == 503 && r.1@ == "db unavailable"@,
{
    match probe {
        Ok(()) => (200, "ready"),
        Err(_) => (503, "db unavailable"),
    }
}

} // verus!
