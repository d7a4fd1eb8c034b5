//! Batch buffer submission.
use vstd::prelude::*;
use std::sync::Arc;
use crate::inteld::context::Context;
use crate::inteld::device::IntelDevice;
use crate::inteld::mmio::MmioWrite;

verus! {

/// A batch buffer to execute.
pub struct ExecBuffer {
    pub batch_start_offset: u64,
    pub batch_len: u64,
}

/// Submit a batch for a context. A context without cores is refused;
/// otherwise the register write that applies the context's core mask is
/// returned, to be performed before the batch runs.
pub fn submit(context: &Arc<Context>, device: &Arc<IntelDevice>, execbuf: &ExecBuffer) -> (r: Result<MmioWrite, &'static str>)
    ensures
        context.params.core_mask == 0 ==> (r matches Err(e) && e@ == "No GPU cores allocated to this context"@),
        context.params.core_mask != 0 ==> r == Ok::<MmioWrite, &'static str>(
            MmioWrite { offset: crate::inteld::context::CONTEXT_POLICY_REG, value: context.params.core_mask as u32 },
        ),
{
    if context.params.core_mask == 0 {
        return Err("No GPU cores allocated to this context");
    }
    Ok(context.apply_mask())
}

} // verus!
