//! NPU buffer records and memory layouts.
use vstd::prelude::*;

verus! {

/// Buffer usage flags.
#[derive(Debug, Clone, Copy, PartialEq, Eq, Structural)]
pub enum BufferUsage {
    /// Read-only input.
    ReadOnly,
    /// Write-only output.
    WriteOnly,
    /// Read-write.
    ReadWrite,
    /// Constant (immutable after creation).
    Constant,
    /// Scratch/temporary.
    Scratch,
}

/// NPU buffer handle; `ptr` is the address the buffer is mapped at, 0 when
/// it is not mapped.
#[derive(Debug, Clone, Copy, PartialEq, Eq, Structural)]
pub struct NpuBuffer {
    pub handle: u32,
    pub size: usize,
    pub usage: BufferUsage,
    pub ptr: usize,
}

/// Whether a buffer of this usage may be written through a mapping.
pub open spec fn usage_writable(u: BufferUsage) -> bool {
    u != BufferUsage::ReadOnly && u != BufferUsage::Constant
}

impl NpuBuffer {
    /// An unmapped buffer descriptor.
    pub fn new(handle: u32, size: usize, usage: BufferUsage) -> (b: Self)
        ensures
            b == (NpuBuffer { handle, size, usage, ptr: 0 }),
    {
        NpuBuffer { handle, size, usage, ptr: 0 }
    }

    /// Whether the buffer is mapped.
    pub fn is_mapped(&self) -> (b: bool)
        ensures
            b == (self.ptr != 0),
    {
        self.ptr != 0
    }

    /// Whether the buffer can be written through its mapping: it is mapped
    /// and neither read-only nor constant.
    pub fn is_writable(&self) -> (b: bool)
        ensures
            b == (self.ptr != 0 && usage_writable(self.usage)),
    {
        self.ptr != 0 && self.usage != BufferUsage::ReadOnly && self.usage != BufferUsage::Constant
    }
}

/// Memory layout for tensors.
#[derive(Debug, Clone, Copy, PartialEq, Eq, Structural)]
pub enum MemoryLayout {
    /// Row-major (C-style).
    RowMajor,
    /// Column-major (Fortran-style).
    ColumnMajor,
    /// Tiled for NPU.
    Tiled { tile_h: u32, tile_w: u32 },
    /// Blocked for matrix ops.
    Blocked { block_size: u32 },
}

/// Memory pool statistics.
#[derive(Debug, Clone)]
pub struct MemoryStats {
    pub total_bytes: u64,
    pub used_bytes: u64,
    pub free_bytes: u64,
    pub allocation_count: u32,
    pub peak_usage: u64,
}

} // verus!
