//! GPU partition management: VRAM range allocation and isolation enforcement.
//!
//! Each `GpuPartition` owns an exclusive VRAM range and a core mask. The
//! `PartitionTable` enforces that no two partitions overlap in either VRAM
//! space or EU core assignment.
use vstd::prelude::*;
use crate::inteld::context::result_text;
use crate::inteld::mmio::{MmioWrite, FENCE_BASE, FENCE_COUNT, FENCE_STRIDE, FENCE_TILE_XMAJOR, FENCE_VALID};

verus! {

broadcast use vstd::seq_lib::group_seq_properties;

/// A single GPU partition: an exclusive VRAM range and EU core mask.
#[derive(Debug, Clone, Copy, PartialEq, Eq, Structural)]
pub struct GpuPartition {
    /// Partition index (0-based).
    pub id: usize,
    /// Bitmask of EU slices assigned to this partition.
    pub core_mask: u64,
    /// Start of the VRAM range (bytes from VRAM base).
    pub vram_start: u64,
    /// Size of the VRAM range in bytes.
    pub vram_size: u64,
}

/// Exclusive end of a partition's VRAM range.
pub open spec fn spec_vram_end(p: GpuPartition) -> int {
    p.vram_start + p.vram_size
}

/// The VRAM ranges of two partitions intersect.
pub open spec fn spec_vram_overlaps(a: GpuPartition, b: GpuPartition) -> bool {
    a.vram_start < spec_vram_end(b) && b.vram_start < spec_vram_end(a)
}

/// The core masks of two partitions share a bit.
pub open spec fn spec_cores_overlap(a: GpuPartition, b: GpuPartition) -> bool {
    a.core_mask & b.core_mask != 0
}

/// Two partitions share neither VRAM nor cores.
pub open spec fn isolated(a: GpuPartition, b: GpuPartition) -> bool {
    !spec_vram_overlaps(a, b) && !spec_cores_overlap(a, b)
}

/// A partition has VRAM and cores, and its VRAM range lies within `total`.
pub open spec fn partition_fits(p: GpuPartition, total: u64) -> bool {
    p.vram_size > 0 && p.core_mask != 0 && spec_vram_end(p) <= total
}

/// Every partition fits the VRAM, and any two partitions are isolated.
pub open spec fn table_isolated(ps: Seq<GpuPartition>, total: u64) -> bool {
    &&& forall|i: int| 0 <= i < ps.len() ==> partition_fits(#[trigger] ps[i], total)
    &&& forall|i: int, j: int| 0 <= i < j < ps.len() ==> isolated(#[trigger] ps[i], #[trigger] ps[j])
}

impl GpuPartition {
    /// Returns the exclusive end of the VRAM range.
    pub fn vram_end(&self) -> (e: u64)
        requires
            self.vram_start + self.vram_size <= u64::MAX,
        ensures
            e == spec_vram_end(*self),
    {
        self.vram_start + self.vram_size
    }

    /// Returns true if this partition's VRAM range overlaps with `other`.
    pub fn vram_overlaps(&self, other: &GpuPartition) -> (b: bool)
        requires
            self.vram_start + self.vram_size <= u64::MAX,
            other.vram_start + other.vram_size <= u64::MAX,
        ensures
            b == spec_vram_overlaps(*self, *other),
    {
        self.vram_start < other.vram_end() && other.vram_start < self.vram_end()
    }

    /// Returns true if this partition's core mask overlaps with `other`.
    pub fn cores_overlap(&self, other: &GpuPartition) -> (b: bool)
        ensures
            b == spec_cores_overlap(*self, *other),
    {
        self.core_mask & other.core_mask != 0
    }
}

/// Overlapping is symmetric, so isolation is too.
pub proof fn lemma_isolated_symmetric(a: GpuPartition, b: GpuPartition)
    ensures
        isolated(a, b) == isolated(b, a),
{
    let x = a.core_mask;
    let y = b.core_mask;
    assert(x & y == y & x) by (bit_vector);
}

/// The first existing partition that `p` conflicts with, scanning in table
/// order: `Some(true)` when it shares VRAM, `Some(false)` when it shares only
/// cores, `None` when `p` is isolated from all.
pub open spec fn first_conflict(ps: Seq<GpuPartition>, p: GpuPartition) -> Option<bool>
    decreases ps.len(),
{
    if ps.len() == 0 {
        None
    } else if spec_vram_overlaps(p, ps[0]) {
        Some(true)
    } else if spec_cores_overlap(p, ps[0]) {
        Some(false)
    } else {
        first_conflict(ps.drop_first(), p)
    }
}

/// The outcome of registering `p` in a table holding `ps`.
pub open spec fn spec_add_partition(ps: Seq<GpuPartition>, total: u64, p: GpuPartition) -> Result<(), Seq<char>> {
    if p.vram_size == 0 {
        Err("partition VRAM size must be non-zero"@)
    } else if spec_vram_end(p) > total {
        Err("partition VRAM range exceeds total VRAM"@)
    } else if p.core_mask == 0 {
        Err("partition core mask must be non-zero"@)
    } else {
        match first_conflict(ps, p) {
            Some(true) => Err("VRAM range overlaps existing partition"@),
            Some(false) => Err("core mask overlaps existing partition"@),
            None => Ok(()),
        }
    }
}

/// `p` conflicts with no partition of `ps` exactly when it is isolated from
/// each of them.
pub proof fn lemma_first_conflict_none(ps: Seq<GpuPartition>, p: GpuPartition)
    ensures
        first_conflict(ps, p) is None <==> forall|i: int| 0 <= i < ps.len() ==> isolated(p, #[trigger] ps[i]),
    decreases ps.len(),
{
    if ps.len() > 0 {
        lemma_first_conflict_none(ps.drop_first(), p);
        if first_conflict(ps, p) is None {
            assert forall|i: int| 0 <= i < ps.len() implies isolated(p, #[trigger] ps[i]) by {
                if i > 0 {
                    assert(ps[i] == ps.drop_first()[i - 1]);
                }
            }
        }
        if forall|i: int| 0 <= i < ps.len() ==> isolated(p, #[trigger] ps[i]) {
            assert(isolated(p, ps[0]));
            assert forall|i: int| 0 <= i < ps.drop_first().len() implies isolated(
                p,
                #[trigger] ps.drop_first()[i],
            ) by {
                assert(ps.drop_first()[i] == ps[i + 1]);
            }
        }
    }
}

/// The first partition of `ps` with identifier `id`.
pub open spec fn first_with_id(ps: Seq<GpuPartition>, id: usize) -> Option<GpuPartition>
    decreases ps.len(),
{
    if ps.len() == 0 {
        None
    } else if ps[0].id == id {
        Some(ps[0])
    } else {
        first_with_id(ps.drop_first(), id)
    }
}

/// Lower fence register value of a partition: bits 31:12 hold the start page,
/// with the X-major tile mode and valid bits set.
pub open spec fn fence_lo(p: GpuPartition) -> u32 {
    (((p.vram_start >> 12u64) as u32) << 12u32) | FENCE_TILE_XMAJOR | FENCE_VALID
}

/// Upper fence register value of a partition: bits 31:12 hold the page of the
/// last byte of the range.
pub open spec fn fence_hi(p: GpuPartition) -> u32 {
    (((((p.vram_start + p.vram_size - 1) as u64) >> 12u64) as u32) << 12u32)
}

/// The fence register writes for a table: two writes (lower, then upper
/// register) for each of the 16 fence slots in order; the slots of the first
/// partitions get their range, the remaining slots are cleared.
pub open spec fn spec_fence_writes(ps: Seq<GpuPartition>) -> Seq<MmioWrite> {
    Seq::new(
        (2 * FENCE_COUNT) as nat,
        |k: int|
            {
                let slot = k / 2;
                let off = (FENCE_BASE + slot * FENCE_STRIDE + (k % 2) * 4) as usize;
                if slot < ps.len() {
                    if k % 2 == 0 {
                        MmioWrite { offset: off, value: fence_lo(ps[slot]) }
                    } else {
                        MmioWrite { offset: off, value: fence_hi(ps[slot]) }
                    }
                } else {
                    MmioWrite { offset: off, value: 0 }
                }
            },
    )
}

/// Global partition table: tracks all active GPU partitions and enforces
/// isolation.
pub struct PartitionTable {
    partitions: Vec<GpuPartition>,
    total_vram: u64,
}

impl PartitionTable {
    /// The registered partitions, in registration order.
    pub closed spec fn partitions_spec(&self) -> Seq<GpuPartition> {
        self.partitions@
    }

    /// Total VRAM size in bytes.
    pub closed spec fn total_vram_spec(&self) -> u64 {
        self.total_vram
    }

    /// The partitions fit the VRAM and are pairwise isolated.
    pub open spec fn wf(&self) -> bool {
        table_isolated(self.partitions_spec(), self.total_vram_spec())
    }

    /// Create an empty table for `total_vram` bytes of VRAM.
    pub fn new(total_vram: u64) -> (t: Self)
        ensures
            t.partitions_spec() == Seq::<GpuPartition>::empty(),
            t.total_vram_spec() == total_vram,
            t.wf(),
    {
        PartitionTable { partitions: Vec::new(), total_vram }
    }

    /// Register a new partition.
    ///
    /// Returns `Err` if the partition has no VRAM or no cores, if its VRAM
    /// range exceeds the total VRAM size, or if it overlaps an existing one
    /// in VRAM or cores.
    pub fn add_partition(&mut self, partition: GpuPartition) -> (r: Result<(), &'static str>)
        requires
            old(self).wf(),
            partition.vram_start + partition.vram_size <= u64::MAX,
        ensures
            final(self).wf(),
            final(self).total_vram_spec() == old(self).total_vram_spec(),
            result_text(r) == spec_add_partition(
                old(self).partitions_spec(),
                old(self).total_vram_spec(),
                partition,
            ),
            r is Ok ==> final(self).partitions_spec() == old(self).partitions_spec().push(partition),
            r is Err ==> final(self).partitions_spec() == old(self).partitions_spec(),
    {
        if partition.vram_size == 0 {
            return Err("partition VRAM size must be non-zero");
        }
        if partition.vram_end() > self.total_vram {
            return Err("partition VRAM range exceeds total VRAM");
        }
        if partition.core_mask == 0 {
            return Err("partition core mask must be non-zero");
        }
        let ghost ps = self.partitions@;
        assert(ps.subrange(0, ps.len() as int) =~= ps);
        let mut i: usize = 0;
        while i < self.partitions.len()
            invariant
                ps == self.partitions@,
                old(self).wf(),
                ps == old(self).partitions_spec(),
                self.total_vram == old(self).total_vram_spec(),
                partition.vram_start + partition.vram_size <= u64::MAX,
                partition.vram_size != 0,
                spec_vram_end(partition) <= self.total_vram,
                partition.core_mask != 0,
                0 <= i <= ps.len(),
                first_conflict(ps, partition) == first_conflict(ps.subrange(i as int, ps.len() as int), partition),
            decreases ps.len() - i,
        {
            let existing = self.partitions[i];
            assert(partition_fits(ps[i as int], self.total_vram));
            let ghost rest = ps.subrange(i as int, ps.len() as int);
            assert(rest[0] == existing);
            assert(rest.drop_first() =~= ps.subrange(i as int + 1, ps.len() as int));
            if partition.vram_overlaps(&existing) {
                assert(first_conflict(rest, partition) == Some(true));
                return Err("VRAM range overlaps existing partition");
            }
            if partition.cores_overlap(&existing) {
                assert(first_conflict(rest, partition) == Some(false));
                return Err("core mask overlaps existing partition");
            }
            assert(first_conflict(rest, partition) == first_conflict(rest.drop_first(), partition));
            i = i + 1;
        }
        proof {
            assert(ps.subrange(ps.len() as int, ps.len() as int) =~= Seq::<GpuPartition>::empty());
            lemma_first_conflict_none(ps, partition);
            assert forall|a: int, b: int| 0 <= a < b < ps.len() + 1 implies isolated(
                #[trigger] ps.push(partition)[a],
                #[trigger] ps.push(partition)[b],
            ) by {
                if b == ps.len() {
                    assert(isolated(partition, ps[a]));
                    lemma_isolated_symmetric(partition, ps[a]);
                }
            }
        }
        self.partitions.push(partition);
        Ok(())
    }

    /// Remove every partition with identifier `id`.
    pub fn remove_partition(&mut self, id: usize)
        requires
            old(self).wf(),
        ensures
            final(self).wf(),
            final(self).total_vram_spec() == old(self).total_vram_spec(),
            final(self).partitions_spec() == old(self).partitions_spec().filter(
                |q: GpuPartition| q.id != id,
            ),
    {
        let ghost ps = self.partitions@;
        let ghost pred = |q: GpuPartition| q.id != id;
        let mut kept: Vec<GpuPartition> = Vec::new();
        let mut i: usize = 0;
        while i < self.partitions.len()
            invariant
                ps == self.partitions@,
                table_isolated(ps, self.total_vram),
                pred == (|q: GpuPartition| q.id != id),
                0 <= i <= ps.len(),
                kept@ == ps.subrange(0, i as int).filter(pred),
                table_isolated(kept@, self.total_vram),
                forall|k: int|
                    0 <= k < kept@.len() ==> exists|j: int|
                        0 <= j < i && #[trigger] kept@[k] == #[trigger] ps[j],
            decreases ps.len() - i,
        {
            let p = self.partitions[i];
            proof {
                ps.subrange(0, i as int).lemma_filter_push(p, pred);
                assert(ps.subrange(0, i as int + 1) =~= ps.subrange(0, i as int).push(p));
            }
            if p.id != id {
                proof {
                    let kk = kept@.push(p);
                    assert forall|a: int, b: int| 0 <= a < b < kk.len() implies isolated(
                        #[trigger] kk[a],
                        #[trigger] kk[b],
                    ) by {
                        if b == kept@.len() {
                            let j = choose|j: int| 0 <= j < i && kept@[a] == ps[j];
                            assert(isolated(ps[j], ps[i as int]));
                        }
                    }
                    assert forall|k: int| 0 <= k < kk.len() implies exists|j: int|
                        0 <= j < i + 1 && #[trigger] kk[k] == #[trigger] ps[j] by {
                        if k < kept@.len() {
                            let j = choose|j: int| 0 <= j < i && kept@[k] == ps[j];
                            assert(kk[k] == ps[j]);
                        } else {
                            assert(kk[k] == ps[i as int]);
                        }
                    }
                }
                kept.push(p);
            }
            i = i + 1;
        }
        proof {
            assert(ps.subrange(0, ps.len() as int) =~= ps);
        }
        self.partitions = kept;
    }

    /// Look up the first partition with identifier `id`.
    pub fn get_partition(&self, id: usize) -> (r: Option<GpuPartition>)
        ensures
            r == first_with_id(self.partitions_spec(), id),
    {
        let ghost ps = self.partitions@;
        assert(ps.subrange(0, ps.len() as int) =~= ps);
        let mut i: usize = 0;
        while i < self.partitions.len()
            invariant
                ps == self.partitions@,
                0 <= i <= ps.len(),
                first_with_id(ps, id) == first_with_id(ps.subrange(i as int, ps.len() as int), id),
            decreases ps.len() - i,
        {
            let ghost rest = ps.subrange(i as int, ps.len() as int);
            assert(rest.drop_first() =~= ps.subrange(i as int + 1, ps.len() as int));
            assert(rest[0] == ps[i as int]);
            if self.partitions[i].id == id {
                return Some(self.partitions[i]);
            }
            assert(first_with_id(rest, id) == first_with_id(rest.drop_first(), id));
            i = i + 1;
        }
        proof {
            assert(ps.subrange(ps.len() as int, ps.len() as int) =~= Seq::<GpuPartition>::empty());
        }
        None
    }

    /// The fence register writes that confine each partition to its VRAM
    /// range: one fence per partition (up to 16), unused fence slots cleared.
    pub fn program_fences(&self) -> (writes: Vec<MmioWrite>)
        requires
            self.wf(),
        ensures
            writes@ == spec_fence_writes(self.partitions_spec()),
    {
        let ghost ps = self.partitions@;
        let mut writes: Vec<MmioWrite> = Vec::new();
        let mut slot: usize = 0;
        while slot < FENCE_COUNT
            invariant
                ps == self.partitions@,
                table_isolated(ps, self.total_vram),
                0 <= slot <= FENCE_COUNT,
                writes@ =~= spec_fence_writes(ps).subrange(0, 2 * slot as int),
            decreases FENCE_COUNT - slot,
        {
            let base_off = FENCE_BASE + slot * FENCE_STRIDE;
            if slot < self.partitions.len() {
                let p = self.partitions[slot];
                assert(partition_fits(ps[slot as int], self.total_vram));
                let lo = (((p.vram_start >> 12u64) as u32) << 12u32) | FENCE_TILE_XMAJOR | FENCE_VALID;
                let last = p.vram_end() - 1;
                let hi = (((last >> 12u64) as u32) << 12u32);
                writes.push(MmioWrite { offset: base_off, value: lo });
                writes.push(MmioWrite { offset: base_off + 4, value: hi });
            } else {
                writes.push(MmioWrite { offset: base_off, value: 0 });
                writes.push(MmioWrite { offset: base_off + 4, value: 0 });
            }
            slot = slot + 1;
        }
        writes
    }

    /// Whether `core_mask` shares no core with any registered partition.
    pub fn check_core_overlap(&self, core_mask: u64) -> (free: bool)
        ensures
            free == forall|i: int|
                0 <= i < self.partitions_spec().len() ==> #[trigger] self.partitions_spec()[i].core_mask
                    & core_mask == 0,
    {
        let mut i: usize = 0;
        while i < self.partitions.len()
            invariant
                0 <= i <= self.partitions@.len(),
                forall|k: int| 0 <= k < i ==> #[trigger] self.partitions@[k].core_mask & core_mask == 0,
            decreases self.partitions@.len() - i,
        {
            if (self.partitions[i].core_mask & core_mask) != 0 {
                assert(self.partitions_spec()[i as int].core_mask & core_mask != 0);
                return false;
            }
            i = i + 1;
        }
        true
    }
}

} // verus!
