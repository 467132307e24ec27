//! Start-up of the metrics endpoint.
use vstd::prelude::*;

verus! {

/// Starts the metrics endpoint at `metrics_address`; nothing is served yet,
/// so this always succeeds.
pub fn init(metrics_address: &str) -> (r: Result<(), String>)
    ensures
        r is Ok,
{
    Ok(())
}

} // verus!
