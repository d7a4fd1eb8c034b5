//! Linux access mode bits.
use vstd::prelude::*;

verus! {

pub const F_OK: i32 = 0;
pub const X_OK: i32 = 1;
pub const W_OK: i32 = 2;
pub const R_OK: i32 = 4;

} // verus!
