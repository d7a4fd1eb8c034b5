//! Signal code values.
use vstd::prelude::*;

verus! {

/// Sent by kill().
pub const SI_USER: i32 = 0;
/// Sent by the kernel.
pub const SI_KERNEL: i32 = 128;
/// Sent by sigqueue().
pub const SI_QUEUE: i32 = -1;
/// Timer expired.
pub const SI_TIMER: i32 = -2;
/// Message queue.
pub const SI_MESGQ: i32 = -3;
/// AIO completion.
pub const SI_ASYNCIO: i32 = -4;
/// Queued SIGIO.
pub const SI_SIGIO: i32 = -5;
/// Sent by tkill().
pub const SI_TKILL: i32 = -6;
/// Illegal opcode.
pub const ILL_ILLOPC: i32 = 1;
/// Illegal operand.
pub const ILL_ILLOPN: i32 = 2;
/// Illegal addressing mode.
pub const ILL_ILLADR: i32 = 3;
/// Illegal trap.
pub const ILL_ILLTRP: i32 = 4;
/// Privileged opcode.
pub const ILL_PRVOPC: i32 = 5;
/// Privileged register.
pub const ILL_PRVREG: i32 = 6;
/// Coprocessor error.
pub const ILL_COPROC: i32 = 7;
/// Bad stack.
pub const ILL_BADSTK: i32 = 8;
/// Integer divide by zero.
pub const FPE_INTDIV: i32 = 1;
/// Integer overflow.
pub const FPE_INTOVF: i32 = 2;
/// FP divide by zero.
pub const FPE_FLTDIV: i32 = 3;
/// FP overflow.
pub const FPE_FLTOVF: i32 = 4;
/// FP underflow.
pub const FPE_FLTUND: i32 = 5;
/// FP inexact result.
pub const FPE_FLTRES: i32 = 6;
/// Invalid FP operation.
pub const FPE_FLTINV: i32 = 7;
/// Subscript out of range.
pub const FPE_FLTSUB: i32 = 8;
/// Address not mapped.
pub const SEGV_MAPERR: i32 = 1;
/// Invalid permissions.
pub const SEGV_ACCERR: i32 = 2;
/// Invalid address alignment.
pub const BUS_ADRALN: i32 = 1;
/// Non-existent address.
pub const BUS_ADRERR: i32 = 2;
/// Hardware error.
pub const BUS_OBJERR: i32 = 3;
/// Child exited.
pub const CLD_EXITED: i32 = 1;
/// Child killed.
pub const CLD_KILLED: i32 = 2;
/// Child dumped core.
pub const CLD_DUMPED: i32 = 3;
/// Traced child trapped.
pub const CLD_TRAPPED: i32 = 4;
/// Child stopped.
pub const CLD_STOPPED: i32 = 5;
/// Child continued.
pub const CLD_CONTINUED: i32 = 6;

} // verus!
