//! Signal action flags.
use vstd::prelude::*;

verus! {

pub const SA_NOCLDSTOP: u64 = 1 << 0;
pub const SA_NOCLDWAIT: u64 = 1 << 1;
pub const SA_SIGINFO: u64 = 1 << 2;
pub const SA_ONSTACK: u64 = 1 << 27;
pub const SA_RESTART: u64 = 1 << 28;
pub const SA_NODEFER: u64 = 1 << 30;
pub const SA_RESETHAND: u64 = 1 << 31;
pub const SA_RESTORER: u64 = 1 << 26;

} // verus!
