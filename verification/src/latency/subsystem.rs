//! Initialization of the latency reduction subsystem.
use vstd::prelude::*;

verus! {

/// Initialize the latency reduction subsystem. Every backend of this crate
/// (Anti-Lag, Reflex, boost) is always available, so initialization cannot fail.
pub fn init() -> (r: Result<(), &'static str>)
    ensures
        r is Ok,
{
    Ok(())
}

} // verus!
