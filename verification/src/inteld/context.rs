//! GPU contexts: core mask assignment and submission bounds checks.
use vstd::prelude::*;
use std::sync::atomic::AtomicU64;
use crate::inteld::mmio::MmioWrite;

verus! {

/// Register that receives a context's core mask.
pub const CONTEXT_POLICY_REG: usize = 0x24C0;

/// Context parameters.
#[derive(Debug, Clone, Copy, PartialEq, Eq, Structural)]
pub struct ContextParams {
    /// Bitmask of the GPU cores the context may use.
    pub core_mask: u64,
    /// Scheduling priority.
    pub priority: u8,
}

impl Default for ContextParams {
    fn default() -> (p: Self)
        ensures
            p.core_mask == 0xFFFF_FFFF_FFFF_FFFFu64 && p.priority == 0,
    {
        ContextParams { core_mask: 0xFFFF_FFFF_FFFF_FFFF, priority: 0 }
    }
}

/// A GPU context.
pub struct Context {
    pub id: u32,
    pub params: ContextParams,
    pub ring_buffer_head: AtomicU64,
    pub vram_start: u64,
    pub vram_size: u64,
}

/// The outcome of checking a batch of `batch_len` bytes at GTT offset
/// `offset` against a context's VRAM range `[vram_start, vram_start +
/// vram_size)`.
pub open spec fn spec_validate_submission(vram_start: u64, vram_size: u64, offset: u64, batch_len: u64) -> Result<(), Seq<char>> {
    if offset + batch_len > u64::MAX || vram_start + vram_size > u64::MAX {
        Err("Overflow"@)
    } else if offset >= vram_start && offset + batch_len <= vram_start + vram_size {
        Ok(())
    } else {
        Err("Out of VRAM bounds"@)
    }
}

/// The text of a result with a static message as error.
pub open spec fn result_text(r: Result<(), &'static str>) -> Result<(), Seq<char>> {
    match r {
        Ok(()) => Ok(()),
        Err(e) => Err(e@),
    }
}

impl Context {
    /// Create a context with an empty ring buffer.
    pub fn new(id: u32, params: ContextParams, vram_start: u64, vram_size: u64) -> (c: Self)
        ensures
            c.id == id,
            c.params == params,
            c.vram_start == vram_start,
            c.vram_size == vram_size,
    {
        Context { id, params, ring_buffer_head: AtomicU64::new(0), vram_start, vram_size }
    }

    /// The register write that applies the context's core mask: the lower
    /// 32 bits of the mask go to the context policy register.
    pub fn apply_mask(&self) -> (w: MmioWrite)
        ensures
            w == (MmioWrite { offset: CONTEXT_POLICY_REG, value: self.params.core_mask as u32 }),
    {
        MmioWrite { offset: CONTEXT_POLICY_REG, value: self.params.core_mask as u32 }
    }

    /// Check that a batch lies inside the context's VRAM range.
    pub fn validate_submission(&self, batch_gtt_offset: u64, batch_len: u64) -> (r: Result<(), &'static str>)
        ensures
            result_text(r) == spec_validate_submission(
                self.vram_start,
                self.vram_size,
                batch_gtt_offset,
                batch_len,
            ),
    {
        let batch_end = match batch_gtt_offset.checked_add(batch_len) {
            Some(e) => e,
            None => {
                return Err("Overflow");
            },
        };
        let vram_end = match self.vram_start.checked_add(self.vram_size) {
            Some(e) => e,
            None => {
                return Err("Overflow");
            },
        };
        if batch_gtt_offset >= self.vram_start && batch_end <= vram_end {
            Ok(())
        } else {
            Err("Out of VRAM bounds")
        }
    }
}

} // verus!
