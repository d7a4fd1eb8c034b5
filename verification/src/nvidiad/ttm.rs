//! TTM (Translation Table Manager) memory manager for NVIDIA GPUs: buffer
//! objects placed in VRAM or in the GTT (system memory).
use vstd::prelude::*;
use std::collections::HashMap;
use std::sync::Arc;
use crate::inteld::gem::align_up_4k;

verus! {

broadcast use vstd::std_specs::hash::group_hash_axioms;

/// TTM buffer flags.
#[derive(Debug, Clone, Copy, PartialEq, Eq, Structural)]
pub struct TtmFlags {
    bits: u32,
}

/// Every flag bit that `TtmFlags` defines.
pub const TTM_FLAGS_ALL: u32 = 0xf;

impl TtmFlags {
    /// Bit of the evictable flag.
    pub const EVICTABLE: u32 = 1;
    /// Bit of the pinned flag.
    pub const PINNED: u32 = 2;
    /// Bit of the CPU-access flag.
    pub const CPU_ACCESS: u32 = 4;
    /// Bit of the GPU-access flag.
    pub const GPU_ACCESS: u32 = 8;

    /// The raw flag bits.
    pub closed spec fn spec_bits(&self) -> u32 {
        self.bits
    }

    /// No flag set.
    pub fn empty() -> (f: TtmFlags)
        ensures
            f.spec_bits() == 0,
    {
        TtmFlags { bits: 0 }
    }

    /// The raw flag bits.
    pub fn bits(&self) -> (b: u32)
        ensures
            b == self.spec_bits(),
    {
        self.bits
    }

    /// The flags whose bits are set in `bits`; unknown bits are dropped.
    pub fn from_bits_truncate(bits: u32) -> (f: TtmFlags)
        ensures
            f.spec_bits() == bits & TTM_FLAGS_ALL,
    {
        TtmFlags { bits: bits & TTM_FLAGS_ALL }
    }

    /// Whether every flag of `other` is set in `self`.
    pub fn contains(&self, other: TtmFlags) -> (b: bool)
        ensures
            b == (self.spec_bits() & other.spec_bits() == other.spec_bits()),
    {
        self.bits & other.bits == other.bits
    }
}

/// TTM placement.
#[derive(Debug, Clone, Copy, PartialEq, Eq, Structural)]
pub enum TtmPlacement {
    /// In VRAM.
    Vram,
    /// In GTT (system memory).
    Gtt,
    /// In system memory.
    System,
}

/// TTM buffer object.
#[derive(Debug, Clone, Copy)]
pub struct TtmObject {
    /// Unique handle.
    pub handle: u32,
    /// Size in bytes.
    pub size: usize,
    /// GPU address.
    pub gpu_addr: u64,
    /// CPU mapping.
    pub cpu_addr: Option<usize>,
    /// Placement.
    pub placement: TtmPlacement,
    /// Flags.
    pub flags: TtmFlags,
}

proof fn lemma_align_up_4k(size: usize)
    requires
        size + 4095 <= usize::MAX,
    ensures
        ((size + 4095) as usize & !4095usize) == align_up_4k(size as int),
{
    let y = (size + 4095) as usize;
    assert(y & !4095usize == y - y % 4096) by (bit_vector);
}

/// Simple bump memory pool.
struct MemoryPool {
    base: u64,
    size: u64,
    next: u64,
}

impl MemoryPool {
    fn new(size: u64) -> (p: Self)
        ensures
            p.base == 0 && p.size == size && p.next == 0,
    {
        MemoryPool { base: 0, size, next: 0 }
    }

    fn allocate(&mut self, size: usize) -> (r: Result<u64, &'static str>)
        requires
            old(self).base == 0,
            size + 4095 <= usize::MAX,
            old(self).next + align_up_4k(size as int) <= u64::MAX,
        ensures
            final(self).base == 0,
            final(self).size == old(self).size,
            old(self).next + align_up_4k(size as int) > old(self).size ==> {
                &&& r matches Err(e) && e@ == "Out of memory"@
                &&& final(self).next == old(self).next
            },
            old(self).next + align_up_4k(size as int) <= old(self).size ==> {
                &&& r == Ok::<u64, &'static str>(old(self).next)
                &&& final(self).next == old(self).next + align_up_4k(size as int)
            },
    {
        proof {
            lemma_align_up_4k(size);
        }
        let aligned_size = (size + 4095) & !4095usize;
        if self.next + aligned_size as u64 > self.size {
            return Err("Out of memory");
        }
        let addr = self.base + self.next;
        self.next = self.next + aligned_size as u64;
        Ok(addr)
    }
}

/// The pool a placement allocates from: VRAM for `Vram`, the GTT otherwise.
pub open spec fn uses_vram(placement: TtmPlacement) -> bool {
    placement == TtmPlacement::Vram
}

/// TTM memory manager.
pub struct TtmManager {
    objects: HashMap<u32, TtmObject>,
    next_handle: u32,
    vram_pool: MemoryPool,
    gtt_pool: MemoryPool,
}

impl TtmManager {
    /// The live objects by handle.
    pub closed spec fn objects_spec(&self) -> Map<u32, TtmObject> {
        self.objects@
    }

    /// The handle the next allocation receives.
    pub closed spec fn next_handle_spec(&self) -> u32 {
        self.next_handle
    }

    /// Offset of the next free byte of the pool serving `placement`.
    pub closed spec fn pool_next_spec(&self, placement: TtmPlacement) -> u64 {
        if uses_vram(placement) {
            self.vram_pool.next
        } else {
            self.gtt_pool.next
        }
    }

    /// Size of the pool serving `placement`.
    pub closed spec fn pool_size_spec(&self, placement: TtmPlacement) -> u64 {
        if uses_vram(placement) {
            self.vram_pool.size
        } else {
            self.gtt_pool.size
        }
    }

    /// Internal consistency: the pools start at 0, and every live object is
    /// filed under its own handle, below the next one.
    pub closed spec fn wf(&self) -> bool {
        &&& self.vram_pool.base == 0 && self.gtt_pool.base == 0
        &&& forall|h: u32| #[trigger] self.objects@.contains_key(h) ==> h < self.next_handle && self.objects@[h].handle == h
            && self.objects@[h].size + 4095 <= usize::MAX
    }

    /// Create a manager with `vram_size` bytes of VRAM and `gtt_size` bytes of GTT.
    pub fn new(vram_size: u64, gtt_size: u64) -> (m: Self)
        ensures
            m.wf(),
            m.objects_spec() == Map::<u32, TtmObject>::empty(),
            m.next_handle_spec() == 1,
            m.pool_next_spec(TtmPlacement::Vram) == 0,
            m.pool_next_spec(TtmPlacement::Gtt) == 0,
            m.pool_size_spec(TtmPlacement::Vram) == vram_size,
            m.pool_size_spec(TtmPlacement::Gtt) == gtt_size,
            m.pool_next_spec(TtmPlacement::System) == 0,
            m.pool_size_spec(TtmPlacement::System) == gtt_size,
    {
        TtmManager {
            objects: HashMap::new(),
            next_handle: 1,
            vram_pool: MemoryPool::new(vram_size),
            gtt_pool: MemoryPool::new(gtt_size),
        }
    }

    /// Allocate a buffer object of `size` bytes in the pool of `placement`.
    /// The handle counter advances even when the pool is full.
    pub fn allocate(&mut self, size: usize, placement: TtmPlacement, flags: TtmFlags) -> (r: Result<u32, &'static str>)
        requires
            old(self).wf(),
            old(self).next_handle_spec() < u32::MAX,
            size + 4095 <= usize::MAX,
            old(self).pool_next_spec(placement) + align_up_4k(size as int) <= u64::MAX,
        ensures
            final(self).wf(),
            final(self).next_handle_spec() == old(self).next_handle_spec() + 1,
            forall|p: TtmPlacement| #[trigger] final(self).pool_size_spec(p) == old(self).pool_size_spec(p),
            forall|p: TtmPlacement|
                uses_vram(p) != uses_vram(placement) ==> #[trigger] final(self).pool_next_spec(p)
                    == old(self).pool_next_spec(p),
            old(self).pool_next_spec(placement) + align_up_4k(size as int) > old(self).pool_size_spec(
                placement,
            ) ==> {
                &&& r matches Err(e) && e@ == "Out of memory"@
                &&& final(self).objects_spec() == old(self).objects_spec()
                &&& final(self).pool_next_spec(placement) == old(self).pool_next_spec(placement)
            },
            old(self).pool_next_spec(placement) + align_up_4k(size as int) <= old(self).pool_size_spec(
                placement,
            ) ==> {
                &&& r == Ok::<u32, &'static str>(old(self).next_handle_spec())
                &&& final(self).objects_spec() == old(self).objects_spec().insert(
                    old(self).next_handle_spec(),
                    TtmObject {
                        handle: old(self).next_handle_spec(),
                        size,
                        gpu_addr: old(self).pool_next_spec(placement),
                        cpu_addr: None,
                        placement,
                        flags,
                    },
                )
                &&& final(self).pool_next_spec(placement) == old(self).pool_next_spec(placement)
                    + align_up_4k(size as int)
            },
    {
        let handle = self.next_handle;
        self.next_handle = self.next_handle + 1;
        let allocated = match placement {
            TtmPlacement::Vram => self.vram_pool.allocate(size),
            TtmPlacement::Gtt | TtmPlacement::System => self.gtt_pool.allocate(size),
        };
        let gpu_addr = match allocated {
            Ok(a) => a,
            Err(e) => {
                return Err(e);
            },
        };
        let obj = TtmObject { handle, size, gpu_addr, cpu_addr: None, placement, flags };
        self.objects.insert(handle, obj);
        Ok(handle)
    }

    /// Free a buffer object. The pool space is not reclaimed.
    pub fn free(&mut self, handle: u32) -> (r: Result<(), &'static str>)
        requires
            old(self).wf(),
        ensures
            final(self).wf(),
            r is Ok <==> old(self).objects_spec().contains_key(handle),
            r matches Err(e) ==> e@ == "Invalid handle"@,
            final(self).objects_spec() == old(self).objects_spec().remove(handle),
            final(self).next_handle_spec() == old(self).next_handle_spec(),
            forall|p: TtmPlacement| #[trigger] final(self).pool_next_spec(p) == old(self).pool_next_spec(p),
            forall|p: TtmPlacement| #[trigger] final(self).pool_size_spec(p) == old(self).pool_size_spec(p),
    {
        match self.objects.remove(&handle) {
            Some(_obj) => Ok(()),
            None => {
                assert(old(self).objects_spec().remove(handle) =~= old(self).objects_spec());
                Err("Invalid handle")
            },
        }
    }

    /// Look up a buffer object.
    pub fn get(&self, handle: u32) -> (r: Option<Arc<TtmObject>>)
        ensures
            r is Some <==> self.objects_spec().contains_key(handle),
            r matches Some(o) ==> *o == self.objects_spec()[handle],
    {
        match self.objects.get(&handle) {
            Some(obj) => Some(Arc::new(*obj)),
            None => None,
        }
    }

    /// Migrate buffer `handle` to `new_placement`. Within the same pool
    /// (GTT and system memory share one) only the placement changes; into
    /// the other pool the buffer takes the next free space there, as an
    /// allocation of its size would, or the call fails with
    /// "Out of memory" and nothing changes. An unknown handle is accepted
    /// and nothing changes.
    pub fn migrate(&mut self, handle: u32, new_placement: TtmPlacement) -> (r: Result<(), &'static str>)
        requires
            old(self).wf(),
        ensures
            final(self).wf(),
            final(self).next_handle_spec() == old(self).next_handle_spec(),
            forall|p: TtmPlacement| #[trigger] final(self).pool_size_spec(p) == old(self).pool_size_spec(p),
            !old(self).objects_spec().contains_key(handle) ==> r is Ok && final(self).objects_spec()
                == old(self).objects_spec() && forall|p: TtmPlacement| #[trigger] final(self).pool_next_spec(p)
                == old(self).pool_next_spec(p),
            old(self).objects_spec().contains_key(handle) ==> {
                let o = old(self).objects_spec()[handle];
                let next = old(self).pool_next_spec(new_placement);
                let end = next + align_up_4k(o.size as int);
                if uses_vram(o.placement) == uses_vram(new_placement) {
                    &&& r is Ok
                    &&& final(self).objects_spec() == old(self).objects_spec().insert(
                        handle,
                        TtmObject { placement: new_placement, ..o },
                    )
                    &&& forall|p: TtmPlacement| #[trigger] final(self).pool_next_spec(p) == old(self).pool_next_spec(p)
                } else if end > old(self).pool_size_spec(new_placement) {
                    &&& r matches Err(e) && e@ == "Out of memory"@
                    &&& final(self).objects_spec() == old(self).objects_spec()
                    &&& forall|p: TtmPlacement| #[trigger] final(self).pool_next_spec(p) == old(self).pool_next_spec(p)
                } else {
                    &&& r is Ok
                    &&& final(self).objects_spec() == old(self).objects_spec().insert(
                        handle,
                        TtmObject { placement: new_placement, gpu_addr: next, ..o },
                    )
                    &&& final(self).pool_next_spec(new_placement) == end
                    &&& forall|p: TtmPlacement| uses_vram(p) != uses_vram(new_placement)
                        ==> #[trigger] final(self).pool_next_spec(p) == old(self).pool_next_spec(p)
                }
            },
    {
        let o = match self.objects.get(&handle) {
            Some(o) => *o,
            None => {
                return Ok(());
            },
        };
        let same_pool = (o.placement == TtmPlacement::Vram) == (new_placement == TtmPlacement::Vram);
        if same_pool {
            let moved = TtmObject { placement: new_placement, ..o };
            self.objects.insert(handle, moved);
            return Ok(());
        }
        proof {
            lemma_align_up_4k(o.size);
        }
        let aligned: u64 = ((o.size + 4095) & !4095usize) as u64;
        let next = if new_placement == TtmPlacement::Vram { self.vram_pool.next } else { self.gtt_pool.next };
        let size = if new_placement == TtmPlacement::Vram { self.vram_pool.size } else { self.gtt_pool.size };
        if next > size || aligned > size - next {
            return Err("Out of memory");
        }
        let addr = if new_placement == TtmPlacement::Vram {
            self.vram_pool.allocate(o.size)
        } else {
            self.gtt_pool.allocate(o.size)
        };
        match addr {
            Ok(a) => {
                let moved = TtmObject { placement: new_placement, gpu_addr: a, ..o };
                self.objects.insert(handle, moved);
                Ok(())
            },
            Err(e) => Err(e),
        }
    }
}

/// Buffers placed in system memory draw on the GTT pool: the two
/// placements share its cursor and size.
pub proof fn lemma_system_shares_gtt(m: TtmManager)
    ensures
        m.pool_next_spec(TtmPlacement::System) == m.pool_next_spec(TtmPlacement::Gtt),
        m.pool_size_spec(TtmPlacement::System) == m.pool_size_spec(TtmPlacement::Gtt),
{
}

/// Every live object is filed under its own handle, and the next handle is
/// not live: an allocation never replaces a live object.
pub proof fn lemma_handles_fresh(m: TtmManager)
    requires
        m.wf(),
    ensures
        !m.objects_spec().contains_key(m.next_handle_spec()),
        forall|h: u32| #[trigger] m.objects_spec().contains_key(h) ==> m.objects_spec()[h].handle == h,
{
}

/// Freeing the handle an allocation returned leaves the live objects as
/// they were before it: `mid` holds the objects after the allocation filed
/// `obj` under the next handle of `before`, `after` those after freeing it.
pub proof fn lemma_free_undoes_allocate(
    before: TtmManager,
    obj: TtmObject,
    mid: Map<u32, TtmObject>,
    after: Map<u32, TtmObject>,
)
    requires
        before.wf(),
        mid == before.objects_spec().insert(before.next_handle_spec(), obj),
        after == mid.remove(before.next_handle_spec()),
    ensures
        after == before.objects_spec(),
{
    lemma_handles_fresh(before);
    assert(after =~= before.objects_spec());
}

} // verus!
