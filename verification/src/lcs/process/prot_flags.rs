//! Memory protection flags.
use vstd::prelude::*;

verus! {

pub const PROT_NONE: u32 = 0;
pub const PROT_READ: u32 = 1;
pub const PROT_WRITE: u32 = 2;
pub const PROT_EXEC: u32 = 4;

} // verus!
