//! ELF program header flags.
use vstd::prelude::*;

verus! {

/// Execute.
pub const PF_X: u32 = 1;
/// Write.
pub const PF_W: u32 = 2;
/// Read.
pub const PF_R: u32 = 4;

} // verus!
