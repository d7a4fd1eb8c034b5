//! Per-core NVMe submission queues and the coalescing of adjacent requests.
use vstd::prelude::*;
use crossbeam_queue::ArrayQueue;
use super::ring::{
    completion_capacity, completion_items, new_completion_ring, new_submission_ring,
    pop_submission, push_submission, submission_capacity, submission_items,
};

verus! {

/// NVMe block command type.
#[derive(Debug, Clone, Copy, PartialEq, Eq, Structural)]
pub enum NvmeOpcode {
    Read,
    Write,
    Flush,
}

/// The NVMe opcode value of a command type.
pub open spec fn opcode_value(o: NvmeOpcode) -> u8 {
    match o {
        NvmeOpcode::Read => 0x02,
        NvmeOpcode::Write => 0x01,
        NvmeOpcode::Flush => 0x00,
    }
}

impl NvmeOpcode {
    /// The NVMe opcode value.
    pub fn value(&self) -> (v: u8)
        ensures
            v == opcode_value(*self),
    {
        match self {
            NvmeOpcode::Read => 0x02,
            NvmeOpcode::Write => 0x01,
            NvmeOpcode::Flush => 0x00,
        }
    }
}

/// NVMe block submission descriptor.
#[derive(Debug, Clone, Copy, PartialEq, Eq, Structural)]
pub struct NvmeBlockDescriptor {
    pub opcode: NvmeOpcode,
    pub lba_start: u64,
    pub sector_count: u32,
    pub dma_buffer_phys: u64,
    pub command_id: u16,
}

/// NVMe block completion response.
#[derive(Debug, Clone, Copy, PartialEq, Eq, Structural)]
pub struct NvmeCompletionResponse {
    pub command_id: u16,
    pub status_code: u16,
}

/// Whether `next` continues `cur`: same opcode, not a flush, and it starts
/// where `cur` ends.
pub open spec fn mergeable(cur: NvmeBlockDescriptor, next: NvmeBlockDescriptor) -> bool {
    &&& cur.opcode == next.opcode
    &&& cur.opcode != NvmeOpcode::Flush
    &&& cur.lba_start + cur.sector_count == next.lba_start
}

/// `cur` grown by the sectors of `next`.
pub open spec fn merged(cur: NvmeBlockDescriptor, next: NvmeBlockDescriptor) -> NvmeBlockDescriptor {
    NvmeBlockDescriptor { sector_count: (cur.sector_count + next.sector_count) as u32, ..cur }
}

/// Coalescing `rest` onto the open request `cur`: each request that
/// continues the open one joins it, any other closes it and opens anew.
pub open spec fn coalesce_from(cur: NvmeBlockDescriptor, rest: Seq<NvmeBlockDescriptor>) -> Seq<NvmeBlockDescriptor>
    decreases rest.len(),
{
    if rest.len() == 0 {
        seq![cur]
    } else if mergeable(cur, rest[0]) {
        coalesce_from(merged(cur, rest[0]), rest.drop_first())
    } else {
        seq![cur] + coalesce_from(rest[0], rest.drop_first())
    }
}

/// The number of requests that join an earlier one while coalescing.
pub open spec fn merges_from(cur: NvmeBlockDescriptor, rest: Seq<NvmeBlockDescriptor>) -> nat
    decreases rest.len(),
{
    if rest.len() == 0 {
        0
    } else if mergeable(cur, rest[0]) {
        1 + merges_from(merged(cur, rest[0]), rest.drop_first())
    } else {
        merges_from(rest[0], rest.drop_first())
    }
}

/// Coalescing stays within the integer widths: each end address that is
/// compared fits in `u64`, each merged sector count in `u32`.
pub open spec fn fits_from(cur: NvmeBlockDescriptor, rest: Seq<NvmeBlockDescriptor>) -> bool
    decreases rest.len(),
{
    if rest.len() == 0 {
        true
    } else {
        let compared = cur.opcode == rest[0].opcode && cur.opcode != NvmeOpcode::Flush;
        &&& compared ==> cur.lba_start + cur.sector_count <= u64::MAX
        &&& if mergeable(cur, rest[0]) {
            &&& cur.sector_count + rest[0].sector_count <= u32::MAX
            &&& fits_from(merged(cur, rest[0]), rest.drop_first())
        } else {
            fits_from(rest[0], rest.drop_first())
        }
    }
}

/// The coalesced form of a batch (empty for an empty batch).
pub open spec fn coalesced(raw: Seq<NvmeBlockDescriptor>) -> Seq<NvmeBlockDescriptor> {
    if raw.len() == 0 {
        Seq::empty()
    } else {
        coalesce_from(raw[0], raw.drop_first())
    }
}

/// The number of merges coalescing a batch makes.
pub open spec fn merge_count(raw: Seq<NvmeBlockDescriptor>) -> nat {
    if raw.len() == 0 {
        0
    } else {
        merges_from(raw[0], raw.drop_first())
    }
}

/// Whether a batch can be coalesced within the integer widths.
pub open spec fn coalesce_fits(raw: Seq<NvmeBlockDescriptor>) -> bool {
    raw.len() == 0 || fits_from(raw[0], raw.drop_first())
}

/// Coalesces a batch of requests in order, merging each run of adjacent
/// requests of the same opcode (flushes never merge). Returns the coalesced
/// requests and the number of merges.
pub fn coalesce_batch(raw: &Vec<NvmeBlockDescriptor>) -> (r: (Vec<NvmeBlockDescriptor>, u64))
    requires
        coalesce_fits(raw@),
    ensures
        r.0@ == coalesced(raw@),
        r.1 == merge_count(raw@),
{
    let n = raw.len();
    let mut out: Vec<NvmeBlockDescriptor> = Vec::new();
    if n == 0 {
        return (out, 0);
    }
    let mut current = raw[0];
    let mut merges: u64 = 0;
    let mut i: usize = 1;
    assert(raw@.subrange(1, n as int) =~= raw@.drop_first());
    while i < n
        invariant
            n == raw@.len(),
            1 <= i <= n,
            out@ + coalesce_from(current, raw@.subrange(i as int, n as int)) == coalesced(raw@),
            merges + merges_from(current, raw@.subrange(i as int, n as int)) == merge_count(raw@),
            fits_from(current, raw@.subrange(i as int, n as int)),
            merges <= i,
        decreases n - i,
    {
        let next = raw[i];
        let ghost rest = raw@.subrange(i as int, n as int);
        assert(rest[0] == next);
        assert(rest.drop_first() =~= raw@.subrange(i as int + 1, n as int));
        if current.opcode == next.opcode && current.opcode != NvmeOpcode::Flush
            && current.lba_start + (current.sector_count as u64) == next.lba_start
        {
            current.sector_count = current.sector_count + next.sector_count;
            merges = merges + 1;
        } else {
            proof {
                assert(out@.push(current) + coalesce_from(next, rest.drop_first()) =~= out@ + (seq![current]
                    + coalesce_from(next, rest.drop_first())));
            }
            out.push(current);
            current = next;
        }
        i = i + 1;
    }
    proof {
        let rest = raw@.subrange(n as int, n as int);
        assert(rest.len() == 0);
        assert(out@.push(current) =~= out@ + seq![current]);
    }
    out.push(current);
    (out, merges)
}

/// Checks whether a batch can be coalesced within the integer widths.
pub fn check_coalesce_fits(raw: &Vec<NvmeBlockDescriptor>) -> (b: bool)
    ensures
        b == coalesce_fits(raw@),
{
    let n = raw.len();
    if n == 0 {
        return true;
    }
    let mut current = raw[0];
    let mut i: usize = 1;
    assert(raw@.subrange(1, n as int) =~= raw@.drop_first());
    while i < n
        invariant
            n == raw@.len(),
            1 <= i <= n,
            coalesce_fits(raw@) == fits_from(current, raw@.subrange(i as int, n as int)),
        decreases n - i,
    {
        let next = raw[i];
        let ghost rest = raw@.subrange(i as int, n as int);
        assert(rest[0] == next);
        assert(rest.drop_first() =~= raw@.subrange(i as int + 1, n as int));
        if current.opcode == next.opcode && current.opcode != NvmeOpcode::Flush {
            if current.lba_start > u64::MAX - current.sector_count as u64 {
                return false;
            }
            if current.lba_start + (current.sector_count as u64) == next.lba_start {
                if current.sector_count > u32::MAX - next.sector_count {
                    return false;
                }
                current.sector_count = current.sector_count + next.sector_count;
            } else {
                current = next;
            }
        } else {
            current = next;
        }
        i = i + 1;
    }
    assert(raw@.subrange(n as int, n as int).len() == 0);
    true
}

/// Per-core NVMe queue pair.
pub struct PerCoreNvmeQueue {
    pub core_id: usize,
    pub submission_ring: ArrayQueue<NvmeBlockDescriptor>,
    pub completion_ring: ArrayQueue<NvmeCompletionResponse>,
    pub total_ops_submitted: u64,
    pub total_coalesced: u64,
}

impl PerCoreNvmeQueue {
    /// The requests waiting in the submission ring, oldest first.
    pub open spec fn pending(&self) -> Seq<NvmeBlockDescriptor> {
        submission_items(self.submission_ring)
    }

    /// A queue pair of `capacity` entries each, with zero counters.
    pub fn new(core_id: usize, capacity: usize) -> (q: Self)
        requires
            0 < capacity <= isize::MAX,
        ensures
            q.core_id == core_id,
            q.pending() == Seq::<NvmeBlockDescriptor>::empty(),
            submission_capacity(q.submission_ring) == capacity,
            completion_items(q.completion_ring) == Seq::<NvmeCompletionResponse>::empty(),
            completion_capacity(q.completion_ring) == capacity,
            q.total_ops_submitted == 0,
            q.total_coalesced == 0,
    {
        PerCoreNvmeQueue {
            core_id,
            submission_ring: new_submission_ring(capacity),
            completion_ring: new_completion_ring(capacity),
            total_ops_submitted: 0,
            total_coalesced: 0,
        }
    }

    /// Enqueues `desc`; a full ring hands it back as the error.
    pub fn submit(&mut self, desc: NvmeBlockDescriptor) -> (r: Result<(), NvmeBlockDescriptor>)
        ensures
            final(self).core_id == old(self).core_id,
            final(self).total_coalesced == old(self).total_coalesced,
            final(self).completion_ring == old(self).completion_ring,
            submission_capacity(final(self).submission_ring) == submission_capacity(old(self).submission_ring),
            old(self).pending().len() < submission_capacity(old(self).submission_ring) ==> r is Ok
                && final(self).pending() == old(self).pending().push(desc)
                && final(self).total_ops_submitted == old(self).total_ops_submitted.wrapping_add(1),
            old(self).pending().len() >= submission_capacity(old(self).submission_ring) ==> (r matches Err(
                d) && d == desc) && final(self).pending() == old(self).pending()
                && final(self).total_ops_submitted == old(self).total_ops_submitted,
    {
        match push_submission(&mut self.submission_ring, desc) {
            Ok(()) => {
                self.total_ops_submitted = self.total_ops_submitted.wrapping_add(1);
                Ok(())
            },
            Err(d) => Err(d),
        }
    }

    /// Takes every pending request out of the submission ring, oldest first.
    pub fn drain_submissions(&mut self) -> (v: Vec<NvmeBlockDescriptor>)
        ensures
            v@ == old(self).pending(),
            final(self).pending() == Seq::<NvmeBlockDescriptor>::empty(),
            submission_capacity(final(self).submission_ring) == submission_capacity(old(self).submission_ring),
            final(self).core_id == old(self).core_id,
            final(self).completion_ring == old(self).completion_ring,
            final(self).total_ops_submitted == old(self).total_ops_submitted,
            final(self).total_coalesced == old(self).total_coalesced,
    {
        let mut batch: Vec<NvmeBlockDescriptor> = Vec::new();
        loop
            invariant
                batch@ + self.pending() == old(self).pending(),
                submission_capacity(self.submission_ring) == submission_capacity(old(self).submission_ring),
                self.core_id == old(self).core_id,
                self.completion_ring == old(self).completion_ring,
                self.total_ops_submitted == old(self).total_ops_submitted,
                self.total_coalesced == old(self).total_coalesced,
            ensures
                batch@ == old(self).pending(),
                self.pending() == Seq::<NvmeBlockDescriptor>::empty(),
                submission_capacity(self.submission_ring) == submission_capacity(old(self).submission_ring),
                self.core_id == old(self).core_id,
                self.completion_ring == old(self).completion_ring,
                self.total_ops_submitted == old(self).total_ops_submitted,
                self.total_coalesced == old(self).total_coalesced,
            decreases self.pending().len(),
        {
            let ghost before = self.pending();
            match pop_submission(&mut self.submission_ring) {
                Some(d) => {
                    assert(batch@.push(d) + before.drop_first() =~= batch@ + before);
                    batch.push(d);
                },
                None => {
                    assert(batch@ + before =~= batch@);
                    break;
                },
            }
        }
        batch
    }

    /// Drains the submission ring and coalesces the batch; the merges are
    /// counted (wrapping).
    pub fn coalesce_pending_requests(&mut self) -> (v: Vec<NvmeBlockDescriptor>)
        requires
            coalesce_fits(old(self).pending()),
        ensures
            v@ == coalesced(old(self).pending()),
            final(self).pending() == Seq::<NvmeBlockDescriptor>::empty(),
            final(self).total_coalesced == old(self).total_coalesced.wrapping_add(
                merge_count(old(self).pending()) as u64,
            ),
            final(self).total_ops_submitted == old(self).total_ops_submitted,
            final(self).core_id == old(self).core_id,
    {
        let raw = self.drain_submissions();
        let (out, merges) = coalesce_batch(&raw);
        self.total_coalesced = self.total_coalesced.wrapping_add(merges);
        out
    }

    /// Like `coalesce_pending_requests`, but first checks that the drained
    /// batch coalesces within the integer widths; if not, the batch comes
    /// back unchanged as the error and nothing is counted.
    pub fn try_coalesce_pending_requests(&mut self) -> (r: Result<Vec<NvmeBlockDescriptor>, Vec<NvmeBlockDescriptor>>)
        ensures
            final(self).pending() == Seq::<NvmeBlockDescriptor>::empty(),
            final(self).total_ops_submitted == old(self).total_ops_submitted,
            final(self).core_id == old(self).core_id,
            coalesce_fits(old(self).pending()) ==> (r matches Ok(v) && v@ == coalesced(
                old(self).pending(),
            )) && final(self).total_coalesced == old(self).total_coalesced.wrapping_add(
                merge_count(old(self).pending()) as u64,
            ),
            !coalesce_fits(old(self).pending()) ==> (r matches Err(v) && v@ == old(self).pending())
                && final(self).total_coalesced == old(self).total_coalesced,
    {
        let raw = self.drain_submissions();
        if !check_coalesce_fits(&raw) {
            return Err(raw);
        }
        let (out, merges) = coalesce_batch(&raw);
        self.total_coalesced = self.total_coalesced.wrapping_add(merges);
        Ok(out)
    }
}

} // verus!
