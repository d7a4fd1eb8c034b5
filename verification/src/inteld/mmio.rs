//! MMIO register layout and register-value computations for the Intel GPU
//! driver. The volatile accesses themselves are performed by the caller on
//! the mapped region; this module decides which values are written where.
use vstd::prelude::*;

verus! {

/// A 32-bit register write to perform at `offset` bytes from the MMIO base.
#[derive(Debug, Clone, Copy, PartialEq, Eq, Structural)]
pub struct MmioWrite {
    /// Byte offset of the register.
    pub offset: usize,
    /// Value to write.
    pub value: u32,
}

/// MMIO register accessor bound to a mapped region: its base virtual
/// address and its size in bytes.
pub struct MmioRegs {
    base: usize,
    size: usize,
}

/// Value written back by a read-modify-write: bits of `clear_mask` cleared,
/// then bits of `set_mask` set.
pub open spec fn spec_rmw_value(current: u32, set_mask: u32, clear_mask: u32) -> u32 {
    (current & !clear_mask) | set_mask
}

impl MmioRegs {
    /// Size of the mapped region in bytes.
    pub closed spec fn size_spec(&self) -> usize {
        self.size
    }

    /// Base virtual address of the mapped region.
    pub closed spec fn base_spec(&self) -> usize {
        self.base
    }

    /// Describe a mapped region of `size` bytes at virtual address `base`.
    pub fn new(base: usize, size: usize) -> (r: Self)
        ensures
            r.base_spec() == base,
            r.size_spec() == size,
    {
        MmioRegs { base, size }
    }

    /// Base virtual address of the mapped region.
    pub fn base(&self) -> (b: usize)
        ensures
            b == self.base_spec(),
    {
        self.base
    }

    /// Size of the mapped region in bytes.
    pub fn size(&self) -> (s: usize)
        ensures
            s == self.size_spec(),
    {
        self.size
    }

    /// Whether a 32-bit access at `offset` lies inside the region (a 32-bit
    /// read or write outside it is a fault).
    pub fn in_range32(&self, offset: usize) -> (b: bool)
        ensures
            b == (offset + 4 <= self.size_spec()),
    {
        offset <= self.size && self.size - offset >= 4
    }

    /// Whether a 64-bit access at `offset` lies inside the region.
    pub fn in_range64(&self, offset: usize) -> (b: bool)
        ensures
            b == (offset + 8 <= self.size_spec()),
    {
        offset <= self.size && self.size - offset >= 8
    }

    /// Read-modify-write of a 32-bit register holding `current`: the write
    /// that sets the bits in `set_mask` and clears those in `clear_mask`.
    pub fn rmw32(&self, offset: usize, current: u32, set_mask: u32, clear_mask: u32) -> (w: MmioWrite)
        requires
            offset + 4 <= self.size_spec(),
        ensures
            w == (MmioWrite { offset, value: spec_rmw_value(current, set_mask, clear_mask) }),
    {
        MmioWrite { offset, value: (current & !clear_mask) | set_mask }
    }
}

/// GUC context policy register: controls EU (execution unit) core assignment.
pub const GUC_CONTEXT_POLICY: usize = 0x0000_C340;
/// Execution list submit port: used to submit work to specific EU slices.
pub const EXECLIST_SUBMIT_PORT: usize = 0x0002_230C;
/// Fence base register for VRAM partition 0 (repeated every 8 bytes per fence).
pub const FENCE_BASE: usize = 0x0010_0000;
/// Distance between two fence registers.
pub const FENCE_STRIDE: usize = 8;
/// Number of fence registers.
pub const FENCE_COUNT: usize = 16;
/// VRAM fence lower 32 bits: bit 0 = valid.
pub const FENCE_VALID: u32 = 1;
/// VRAM fence lower 32 bits: bits 2:1 = tile mode (X-major).
pub const FENCE_TILE_XMAJOR: u32 = 2;

} // verus!
