//! Linux seek whence values.
use vstd::prelude::*;

verus! {

pub const SEEK_SET: i32 = 0;
pub const SEEK_CUR: i32 = 1;
pub const SEEK_END: i32 = 2;

} // verus!
