//! Signal stack flags.
use vstd::prelude::*;

verus! {

pub const SS_ONSTACK: u32 = 1;
pub const SS_DISABLE: u32 = 2;
pub const SS_AUTODISARM: u32 = 0x80000000;

} // verus!
