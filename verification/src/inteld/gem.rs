//! GEM (Graphics Execution Manager) for Intel GPUs: buffer objects and their
//! placement in the graphics translation table (GTT).
use vstd::prelude::*;
use std::collections::HashMap;
use std::sync::Arc;

verus! {

broadcast use vstd::std_specs::hash::group_hash_axioms;

/// GEM object flags.
#[derive(Debug, Clone, Copy, PartialEq, Eq, Structural)]
pub struct GemFlags {
    bits: u32,
}

/// Every flag bit that `GemFlags` defines.
pub const GEM_FLAGS_ALL: u32 = 0x1f;

impl GemFlags {
    /// Bit of the stolen-memory flag.
    pub const STOLEN: u32 = 1;
    /// Bit of the CPU-access flag.
    pub const CPU_ACCESS: u32 = 2;
    /// Bit of the GPU-access flag.
    pub const GPU_ACCESS: u32 = 4;
    /// Bit of the shareable flag.
    pub const SHAREABLE: u32 = 8;
    /// Bit of the purgeable flag.
    pub const PURGEABLE: u32 = 16;

    /// The raw flag bits.
    pub closed spec fn spec_bits(&self) -> u32 {
        self.bits
    }

    /// No flag set.
    pub fn empty() -> (f: GemFlags)
        ensures
            f.spec_bits() == 0,
    {
        GemFlags { bits: 0 }
    }

    /// The raw flag bits.
    pub fn bits(&self) -> (b: u32)
        ensures
            b == self.spec_bits(),
    {
        self.bits
    }

    /// The flags whose bits are set in `bits`; unknown bits are dropped.
    pub fn from_bits_truncate(bits: u32) -> (f: GemFlags)
        ensures
            f.spec_bits() == bits & GEM_FLAGS_ALL,
    {
        GemFlags { bits: bits & GEM_FLAGS_ALL }
    }

    /// Whether every flag of `other` is set in `self`.
    pub fn contains(&self, other: GemFlags) -> (b: bool)
        ensures
            b == (self.spec_bits() & other.spec_bits() == other.spec_bits()),
    {
        self.bits & other.bits == other.bits
    }

    /// The flags set in either.
    pub fn union(&self, other: GemFlags) -> (f: GemFlags)
        ensures
            f.spec_bits() == self.spec_bits() | other.spec_bits(),
    {
        GemFlags { bits: self.bits | other.bits }
    }
}

/// Tiling mode of a buffer object.
#[derive(Debug, Clone, Copy, PartialEq, Eq, Structural)]
pub enum TilingMode {
    /// Linear layout, no tiling.
    Untiled,
    X,
    Y,
}

/// GEM object.
#[derive(Debug, Clone, Copy)]
pub struct GemObject {
    pub handle: u32,
    pub size: usize,
    pub gtt_offset: u64,
    pub cpu_addr: Option<usize>,
    pub flags: GemFlags,
    pub tiling: TilingMode,
}

/// `size` rounded up to the next multiple of the 4 KiB page size.
pub open spec fn align_up_4k(size: int) -> int {
    (size + 4095) - (size + 4095) % 4096
}

proof fn lemma_align_up_4k(size: usize)
    requires
        size + 4095 <= usize::MAX,
    ensures
        ((size + 4095) as usize & !4095usize) == align_up_4k(size as int),
        align_up_4k(size as int) % 4096 == 0,
{
    let y = (size + 4095) as usize;
    assert(y & !4095usize == y - y % 4096) by (bit_vector);
    vstd::arithmetic::div_mod::lemma_fundamental_div_mod(y as int, 4096);
    vstd::arithmetic::div_mod::lemma_mod_multiples_basic(y as int / 4096, 4096);
}

/// Bump allocator for the graphics translation table.
struct GttAllocator {
    base: u64,
    size: u64,
    next: u64,
}

impl GttAllocator {
    fn new(size: u64) -> (a: Self)
        ensures
            a.base == 0 && a.size == size && a.next == 0,
    {
        GttAllocator { base: 0, size, next: 0 }
    }

    fn allocate(&mut self, size: usize) -> (r: Result<u64, &'static str>)
        requires
            old(self).base == 0,
            size + 4095 <= usize::MAX,
            old(self).next + align_up_4k(size as int) <= u64::MAX,
        ensures
            final(self).base == 0,
            final(self).size == old(self).size,
            old(self).next + align_up_4k(size as int) > old(self).size ==> {
                &&& r matches Err(e) && e@ == "Out of GTT space"@
                &&& final(self).next == old(self).next
            },
            old(self).next + align_up_4k(size as int) <= old(self).size ==> {
                &&& r == Ok::<u64, &'static str>(old(self).next)
                &&& final(self).next == old(self).next + align_up_4k(size as int)
            },
    {
        proof {
            lemma_align_up_4k(size);
        }
        let aligned_size = (size + 4095) & !4095usize;
        if self.next + aligned_size as u64 > self.size {
            return Err("Out of GTT space");
        }
        let offset = self.base + self.next;
        self.next = self.next + aligned_size as u64;
        Ok(offset)
    }
}

/// GEM buffer object manager.
pub struct GemManager {
    objects: HashMap<u32, GemObject>,
    next_handle: u32,
    gtt_allocator: GttAllocator,
}

impl GemManager {
    /// The live objects by handle.
    pub closed spec fn objects_spec(&self) -> Map<u32, GemObject> {
        self.objects@
    }

    /// The handle the next allocation receives.
    pub closed spec fn next_handle_spec(&self) -> u32 {
        self.next_handle
    }

    /// Offset of the next free GTT byte.
    pub closed spec fn gtt_next_spec(&self) -> u64 {
        self.gtt_allocator.next
    }

    /// Size of the GTT in bytes.
    pub closed spec fn gtt_size_spec(&self) -> u64 {
        self.gtt_allocator.size
    }

    /// Internal consistency: the allocator starts at 0 and its cursor is
    /// page-aligned, and every live
    /// object is filed under its own handle, below the next one, with its
    /// page-rounded GTT range below the allocation cursor.
    pub closed spec fn wf(&self) -> bool {
        &&& self.gtt_allocator.base == 0
        &&& self.gtt_allocator.next % 4096 == 0
        &&& forall|h: u32| #[trigger] self.objects@.contains_key(h) ==> {
            &&& h < self.next_handle
            &&& self.objects@[h].handle == h
            &&& self.objects@[h].gtt_offset + align_up_4k(self.objects@[h].size as int) <= self.gtt_allocator.next
        }
    }

    /// Create a manager for a GTT of `gtt_size` bytes.
    pub fn new(gtt_size: u64) -> (m: Self)
        ensures
            m.wf(),
            m.objects_spec() == Map::<u32, GemObject>::empty(),
            m.next_handle_spec() == 1,
            m.gtt_next_spec() == 0,
            m.gtt_size_spec() == gtt_size,
    {
        GemManager { objects: HashMap::new(), next_handle: 1, gtt_allocator: GttAllocator::new(gtt_size) }
    }

    /// Allocate a buffer object of `size` bytes in the GTT. The handle
    /// counter advances even when the GTT is full.
    pub fn allocate(&mut self, size: usize, flags: GemFlags) -> (r: Result<u32, &'static str>)
        requires
            old(self).wf(),
            old(self).next_handle_spec() < u32::MAX,
            size + 4095 <= usize::MAX,
            old(self).gtt_next_spec() + align_up_4k(size as int) <= u64::MAX,
        ensures
            final(self).wf(),
            final(self).next_handle_spec() == old(self).next_handle_spec() + 1,
            final(self).gtt_size_spec() == old(self).gtt_size_spec(),
            old(self).gtt_next_spec() + align_up_4k(size as int) > old(self).gtt_size_spec() ==> {
                &&& r matches Err(e) && e@ == "Out of GTT space"@
                &&& final(self).objects_spec() == old(self).objects_spec()
                &&& final(self).gtt_next_spec() == old(self).gtt_next_spec()
            },
            old(self).gtt_next_spec() + align_up_4k(size as int) <= old(self).gtt_size_spec() ==> {
                &&& r == Ok::<u32, &'static str>(old(self).next_handle_spec())
                &&& final(self).objects_spec() == old(self).objects_spec().insert(
                    old(self).next_handle_spec(),
                    GemObject {
                        handle: old(self).next_handle_spec(),
                        size,
                        gtt_offset: old(self).gtt_next_spec(),
                        cpu_addr: None,
                        flags,
                        tiling: TilingMode::Untiled,
                    },
                )
                &&& final(self).gtt_next_spec() == old(self).gtt_next_spec() + align_up_4k(size as int)
            },
    {
        let handle = self.next_handle;
        self.next_handle = self.next_handle + 1;
        let gtt_offset = match self.gtt_allocator.allocate(size) {
            Ok(o) => o,
            Err(e) => {
                return Err(e);
            },
        };
        let obj = GemObject { handle, size, gtt_offset, cpu_addr: None, flags, tiling: TilingMode::Untiled };
        self.objects.insert(handle, obj);
        Ok(handle)
    }

    /// Free a buffer object. The GTT space is not reclaimed.
    pub fn free(&mut self, handle: u32) -> (r: Result<(), &'static str>)
        requires
            old(self).wf(),
        ensures
            final(self).wf(),
            r is Ok <==> old(self).objects_spec().contains_key(handle),
            r matches Err(e) ==> e@ == "Invalid handle"@,
            final(self).objects_spec() == old(self).objects_spec().remove(handle),
            final(self).next_handle_spec() == old(self).next_handle_spec(),
            final(self).gtt_next_spec() == old(self).gtt_next_spec(),
            final(self).gtt_size_spec() == old(self).gtt_size_spec(),
    {
        match self.objects.remove(&handle) {
            Some(_obj) => Ok(()),
            None => {
                assert(old(self).objects_spec().remove(handle) =~= old(self).objects_spec());
                Err("Invalid handle")
            },
        }
    }

    /// Look up a buffer object.
    pub fn get(&self, handle: u32) -> (r: Option<Arc<GemObject>>)
        ensures
            r is Some <==> self.objects_spec().contains_key(handle),
            r matches Some(o) ==> *o == self.objects_spec()[handle],
    {
        match self.objects.get(&handle) {
            Some(obj) => Some(Arc::new(*obj)),
            None => None,
        }
    }
}

/// Every live object is filed under its own handle, and the next handle is
/// not live: an allocation never replaces a live object.
pub proof fn lemma_handles_fresh(m: GemManager)
    requires
        m.wf(),
    ensures
        !m.objects_spec().contains_key(m.next_handle_spec()),
        forall|h: u32| #[trigger] m.objects_spec().contains_key(h) ==> m.objects_spec()[h].handle == h,
{
}

/// The allocation cursor is page-aligned, and every live object's
/// page-rounded GTT range lies below it; the cursor only moves up on
/// allocation and freeing leaves in place: a
/// freed range is never handed out again, and no two live ranges overlap.
pub proof fn lemma_live_ranges_below_cursor(m: GemManager)
    requires
        m.wf(),
    ensures
        m.gtt_next_spec() % 4096 == 0,
        forall|h: u32| #[trigger] m.objects_spec().contains_key(h) ==>
            m.objects_spec()[h].gtt_offset + align_up_4k(m.objects_spec()[h].size as int) <= m.gtt_next_spec(),
{
}

/// Freeing the handle an allocation returned leaves the live objects as
/// they were before it: `mid` holds the objects after the allocation filed
/// `obj` under the next handle of `before`, `after` those after freeing it.
pub proof fn lemma_free_undoes_allocate(
    before: GemManager,
    obj: GemObject,
    mid: Map<u32, GemObject>,
    after: Map<u32, GemObject>,
)
    requires
        before.wf(),
        mid == before.objects_spec().insert(before.next_handle_spec(), obj),
        after == mid.remove(before.next_handle_spec()),
    ensures
        after == before.objects_spec(),
{
    lemma_handles_fresh(before);
    assert(after =~= before.objects_spec());
}

} // verus!
