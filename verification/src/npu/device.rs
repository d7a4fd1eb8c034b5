//! NPU device configuration, statistics and the device memory pool.
use vstd::prelude::*;
use std::collections::BTreeMap;
use super::memory::{BufferUsage, NpuBuffer};

verus! {

broadcast use vstd::std_specs::btree::group_btree_axioms;

/// NPU device type.
#[derive(Debug, Clone, Copy, PartialEq, Eq, Structural)]
pub enum NpuType {
    Generic,
    IntelVpu,
    AmdXdna,
    AppleAne,
    QualcommHexagon,
    GoogleEdgeTpu,
    NvidiaTensorCore,
}

/// NPU configuration.
#[derive(Debug, Clone, Copy)]
pub struct NpuConfig {
    /// Enable power management.
    pub power_management: bool,
    /// Command queue depth.
    pub queue_depth: u32,
    /// Memory pool size in MiB.
    pub memory_pool_mb: u32,
    /// Enable performance counters.
    pub perf_counters: bool,
}

impl Default for NpuConfig {
    /// Power management on, 256 queue entries, a 256 MiB pool, no counters.
    fn default() -> (c: Self)
        ensures
            c.power_management,
            c.queue_depth == 256,
            c.memory_pool_mb == 256,
            !c.perf_counters,
    {
        NpuConfig { power_management: true, queue_depth: 256, memory_pool_mb: 256, perf_counters: false }
    }
}

/// NPU statistics.
#[derive(Debug)]
pub struct NpuStats {
    pub commands_submitted: u64,
    pub commands_completed: u64,
    pub bytes_processed: u64,
    pub total_execution_ns: u64,
}

impl NpuStats {
    /// All counters at zero.
    pub fn new() -> (s: Self)
        ensures
            s.commands_submitted == 0,
            s.commands_completed == 0,
            s.bytes_processed == 0,
            s.total_execution_ns == 0,
    {
        NpuStats { commands_submitted: 0, commands_completed: 0, bytes_processed: 0, total_execution_ns: 0 }
    }
}

impl Default for NpuStats {
    fn default() -> (s: Self)
        ensures
            s.commands_submitted == 0,
            s.commands_completed == 0,
            s.bytes_processed == 0,
            s.total_execution_ns == 0,
    {
        Self::new()
    }
}

/// A live allocation of the pool.
#[derive(Debug, Clone, Copy, PartialEq, Eq, Structural)]
pub struct Allocation {
    pub handle: u32,
    pub size: usize,
    pub usage: BufferUsage,
}

/// The bytes held by the allocations of `m`.
pub open spec fn alloc_total(m: Map<u32, Allocation>) -> nat
    decreases m.dom().len(),
    when m.dom().finite()
{
    if m.dom().len() == 0 {
        0
    } else {
        let k = m.dom().choose();
        m[k].size as nat + alloc_total(m.remove(k))
    }
}

/// Any one allocation can be taken out of the total first.
pub proof fn lemma_alloc_total_remove(m: Map<u32, Allocation>, k: u32)
    requires
        m.dom().finite(),
        m.contains_key(k),
    ensures
        alloc_total(m) == m[k].size + alloc_total(m.remove(k)),
    decreases m.dom().len(),
{
    let c = m.dom().choose();
    assert(m.dom().contains(k));
    assert(m.dom().len() != 0);
    assert(m.dom().contains(c));
    if c != k {
        assert(m.remove(c).dom() =~= m.dom().remove(c));
        assert(m.remove(k).dom() =~= m.dom().remove(k));
        lemma_alloc_total_remove(m.remove(c), k);
        lemma_alloc_total_remove(m.remove(k), c);
        assert(m.remove(c).remove(k) =~= m.remove(k).remove(c));
    }
}

/// Filing a new allocation adds its size to the total.
pub proof fn lemma_alloc_total_insert(m: Map<u32, Allocation>, k: u32, a: Allocation)
    requires
        m.dom().finite(),
        !m.contains_key(k),
    ensures
        alloc_total(m.insert(k, a)) == a.size + alloc_total(m),
{
    lemma_alloc_total_remove(m.insert(k, a), k);
    assert(m.insert(k, a).remove(k) =~= m);
}

/// Device memory pool: a byte budget, the bytes in use, and the live
/// allocations by handle.
pub struct NpuMemoryPool {
    total_bytes: u64,
    used_bytes: u64,
    next_handle: u32,
    allocations: BTreeMap<u32, Allocation>,
}

impl NpuMemoryPool {
    /// The byte budget.
    pub closed spec fn total(&self) -> u64 {
        self.total_bytes
    }

    /// The bytes counted as in use.
    pub closed spec fn used(&self) -> u64 {
        self.used_bytes
    }

    /// The handle the next allocation gets.
    pub closed spec fn next_handle_spec(&self) -> u32 {
        self.next_handle
    }

    /// The live allocations by handle.
    pub closed spec fn allocs(&self) -> Map<u32, Allocation> {
        self.allocations@
    }

    /// The bytes in use are those of the live allocations, within the
    /// budget, and every live allocation is filed under its own handle,
    /// from 1 up to (not including) the next handle, so the next handle is
    /// fresh.
    pub open spec fn consistent(&self) -> bool {
        &&& self.allocs().dom().finite()
        &&& self.used() == alloc_total(self.allocs())
        &&& self.used() <= self.total()
        &&& self.next_handle_spec() >= 1
        &&& forall|h: u32| #[trigger] self.allocs().contains_key(h) ==> 1 <= h < self.next_handle_spec()
            && self.allocs()[h].handle == h
    }

    /// A pool of `total_bytes` with nothing allocated; handles start at 1.
    pub fn new(total_bytes: u64) -> (p: Self)
        ensures
            p.consistent(),
            p.total() == total_bytes,
            p.used() == 0,
            p.next_handle_spec() == 1,
            p.allocs() == Map::<u32, Allocation>::empty(),
    {
        NpuMemoryPool { total_bytes, used_bytes: 0, next_handle: 1, allocations: BTreeMap::new() }
    }

    /// Allocates `size` bytes unless that would exceed the budget.
    pub fn allocate(&mut self, size: usize, usage: BufferUsage) -> (r: Option<NpuBuffer>)
        requires
            old(self).used() + size <= u64::MAX,
        ensures
            final(self).total() == old(self).total(),
            old(self).used() + size > old(self).total() ==> r is None && final(self).used()
                == old(self).used() && final(self).next_handle_spec() == old(
                self,
            ).next_handle_spec() && final(self).allocs() == old(self).allocs(),
            old(self).used() + size <= old(self).total() ==> {
                let h = old(self).next_handle_spec();
                &&& r == Some(NpuBuffer { handle: h, size, usage, ptr: 0 })
                &&& final(self).used() == old(self).used() + size
                &&& final(self).next_handle_spec() == h.wrapping_add(1)
                &&& final(self).allocs() == old(self).allocs().insert(
                    h,
                    Allocation { handle: h, size, usage },
                )
            },
            old(self).consistent() && old(self).next_handle_spec() < u32::MAX ==> final(self).consistent(),
    {
        proof {
            if old(self).consistent() && old(self).next_handle_spec() < u32::MAX {
                lemma_alloc_total_insert(
                    old(self).allocs(),
                    old(self).next_handle_spec(),
                    Allocation { handle: old(self).next_handle_spec(), size, usage },
                );
            }
        }
        let current = self.used_bytes;
        if current + size as u64 > self.total_bytes {
            return None;
        }
        self.used_bytes = current + size as u64;
        let handle = self.next_handle;
        self.next_handle = self.next_handle.wrapping_add(1);
        self.allocations.insert(handle, Allocation { handle, size, usage });
        Some(NpuBuffer { handle, size, usage, ptr: 0 })
    }

    /// Frees `buffer`: when its handle is live, the allocation goes and the
    /// buffer's size is taken off the bytes in use (wrapping).
    pub fn free(&mut self, buffer: NpuBuffer)
        ensures
            final(self).total() == old(self).total(),
            final(self).next_handle_spec() == old(self).next_handle_spec(),
            final(self).allocs() == old(self).allocs().remove(buffer.handle),
            old(self).allocs().contains_key(buffer.handle) ==> final(self).used() == old(
                self,
            ).used().wrapping_sub(buffer.size as u64),
            !old(self).allocs().contains_key(buffer.handle) ==> final(self).used() == old(
                self,
            ).used(),
            old(self).consistent() && (old(self).allocs().contains_key(buffer.handle)
                ==> old(self).allocs()[buffer.handle].size == buffer.size) ==> final(self).consistent(),
    {
        proof {
            if old(self).consistent() && old(self).allocs().contains_key(buffer.handle) {
                lemma_alloc_total_remove(old(self).allocs(), buffer.handle);
            }
            if !old(self).allocs().contains_key(buffer.handle) {
                assert(old(self).allocs().remove(buffer.handle) =~= old(self).allocs());
            }
        }
        let h = buffer.handle;
        if self.allocations.remove(&h).is_some() {
            self.used_bytes = self.used_bytes.wrapping_sub(buffer.size as u64);
        }
    }
}

/// Freeing the buffer that an allocation returned gives back the bytes the
/// allocation took: `before` is a pool, `mid` the pool after `allocate`
/// returned `buf`, `after` the pool after `free(buf)`.
pub proof fn lemma_free_undoes_allocate(
    before: NpuMemoryPool,
    mid: NpuMemoryPool,
    after: NpuMemoryPool,
    buf: NpuBuffer,
)
    requires
        before.used() + buf.size <= before.total(),
        mid.used() == before.used() + buf.size,
        mid.allocs() == before.allocs().insert(
            buf.handle,
            Allocation { handle: buf.handle, size: buf.size, usage: buf.usage },
        ),
        after.allocs() == mid.allocs().remove(buf.handle),
        mid.allocs().contains_key(buf.handle) ==> after.used() == mid.used().wrapping_sub(
            buf.size as u64,
        ),
    ensures
        after.used() == before.used(),
        after.allocs() == before.allocs().remove(buf.handle),
{
    assert(after.allocs() =~= before.allocs().remove(buf.handle));
}

/// In a consistent pool the next handle is not live, so an allocation
/// never replaces a live one, and the bytes in use never exceed the budget.
pub proof fn lemma_pool_next_handle_fresh(p: NpuMemoryPool)
    requires
        p.consistent(),
    ensures
        !p.allocs().contains_key(p.next_handle_spec()),
        p.used() <= p.total(),
{
}

} // verus!
