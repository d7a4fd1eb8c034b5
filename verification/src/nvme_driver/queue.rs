//! NVMe queue pairs: submission ring arithmetic, completion phase
//! tracking, commands in flight, per-queue statistics, and the manager
//! that spreads I/O over the queues.
//!
//! The rings are the controller's memory; a queue pair keeps what the
//! driver decides about them as plain values. After a submission the
//! caller copies the written slot to the controller's ring and rings the
//! submission doorbell with `sq_doorbell`; to poll, it reads the entry at
//! `cq_head` and hands it in, and after a completion it rings the
//! completion doorbell with `cq_doorbell`.
use vstd::prelude::*;
use std::collections::BTreeMap;
use std::time::Instant;
use crate::nvme_core::runqueue::{NvmeOpcode, opcode_value};
use super::time::{duration_nanos, instant_elapsed, now};

verus! {

broadcast use {vstd::std_specs::btree::group_btree_axioms, vstd::laws_cmp::group_laws_cmp};

/// Maximum queue depth.
pub const MAX_QUEUE_DEPTH: usize = 4096;

/// An NVMe I/O command as the driver builds it.
#[derive(Debug, Clone, Copy, PartialEq, Eq, Structural)]
pub struct NvmeCommand {
    /// Opcode value.
    pub opcode: u8,
    /// Command identifier.
    pub command_id: u16,
    /// Namespace id.
    pub ns_id: u32,
    /// Starting LBA.
    pub lba: u64,
    /// Number of blocks, 0-based as NVMe counts them.
    pub blocks: u16,
    /// First data pointer.
    pub prp1: u64,
    /// Second data pointer.
    pub prp2: u64,
}

/// The empty command a fresh ring holds.
pub open spec fn empty_command() -> NvmeCommand {
    NvmeCommand { opcode: 0, command_id: 0, ns_id: 0, lba: 0, blocks: 0, prp1: 0, prp2: 0 }
}

/// An NVMe completion queue entry, as far as the driver reads it.
#[derive(Debug, Clone, Copy, PartialEq, Eq, Structural)]
pub struct CompletionEntry {
    /// Identifier of the completed command.
    pub command_id: u16,
    /// Status field: bit 0 is the phase tag, the rest the status.
    pub status: u16,
    /// Command-specific result.
    pub cdw0: u32,
}

/// A command waiting for its completion, with what the caller attached.
pub struct PendingCommand<P> {
    /// What the caller needs to answer the request.
    pub payload: P,
    /// When the command was submitted.
    pub submitted_at: Instant,
    /// Whether it writes.
    pub is_write: bool,
    /// Bytes transferred.
    pub bytes: usize,
}

/// Completion information.
#[derive(Debug)]
pub struct CompletionInfo {
    pub command_id: u16,
    pub status: u16,
    pub result: u32,
    pub submitted_at: Instant,
    pub is_write: bool,
    pub bytes: usize,
}

/// Per-queue statistics (counters wrap).
#[derive(Debug, Clone, Copy, PartialEq, Eq, Structural)]
pub struct QueueStats {
    pub commands_submitted: u64,
    pub commands_completed: u64,
    pub bytes_read: u64,
    pub bytes_written: u64,
    pub total_latency_ns: u64,
    pub max_latency_ns: u64,
    pub min_latency_ns: u64,
}

/// Statistics with every counter at zero.
pub open spec fn zero_stats() -> QueueStats {
    QueueStats {
        commands_submitted: 0,
        commands_completed: 0,
        bytes_read: 0,
        bytes_written: 0,
        total_latency_ns: 0,
        max_latency_ns: 0,
        min_latency_ns: 0,
    }
}

impl Default for QueueStats {
    fn default() -> (s: Self)
        ensures
            s == zero_stats(),
    {
        QueueStats {
            commands_submitted: 0,
            commands_completed: 0,
            bytes_read: 0,
            bytes_written: 0,
            total_latency_ns: 0,
            max_latency_ns: 0,
            min_latency_ns: 0,
        }
    }
}

/// Queue statistics snapshot.
#[derive(Debug, Clone, Copy, PartialEq, Eq, Structural)]
pub struct QueueStatsSnapshot {
    pub commands_submitted: u64,
    pub commands_completed: u64,
    pub commands_in_flight: u32,
    pub bytes_read: u64,
    pub bytes_written: u64,
    pub avg_latency_ns: u64,
    pub max_latency_ns: u64,
    pub min_latency_ns: u64,
}

/// A queue pair as plain values.
pub struct QueuePairView<P> {
    pub id: usize,
    pub sq: Seq<NvmeCommand>,
    pub sq_tail: u16,
    pub sq_head: u16,
    pub cq_len: nat,
    pub cq_head: u16,
    pub cq_phase: bool,
    pub sq_doorbell: u32,
    pub cq_doorbell: u32,
    pub pending: Map<u16, PendingCommand<P>>,
    pub next_cmd_id: u16,
    pub in_flight: u32,
    pub max_depth: u16,
    pub active: bool,
    pub stats: QueueStats,
}

/// NVMe I/O queue pair: a submission ring, a completion ring, the commands
/// in flight and the queue's statistics.
pub struct QueuePair<P> {
    /// Queue id (0 = admin, 1+ = I/O).
    pub id: usize,
    sq: Vec<NvmeCommand>,
    sq_tail: u16,
    sq_head: u16,
    cq_len: u16,
    cq_head: u16,
    cq_phase: bool,
    sq_doorbell: u32,
    cq_doorbell: u32,
    pending: BTreeMap<u16, PendingCommand<P>>,
    next_cmd_id: u16,
    in_flight: u32,
    max_depth: u16,
    active: bool,
    stats: QueueStats,
}

impl<P> View for QueuePair<P> {
    type V = QueuePairView<P>;

    closed spec fn view(&self) -> QueuePairView<P> {
        QueuePairView {
            id: self.id,
            sq: self.sq@,
            sq_tail: self.sq_tail,
            sq_head: self.sq_head,
            cq_len: self.cq_len as nat,
            cq_head: self.cq_head,
            cq_phase: self.cq_phase,
            sq_doorbell: self.sq_doorbell,
            cq_doorbell: self.cq_doorbell,
            pending: self.pending@,
            next_cmd_id: self.next_cmd_id,
            in_flight: self.in_flight,
            max_depth: self.max_depth,
            active: self.active,
            stats: self.stats,
        }
    }
}

/// The ring positions stay inside the rings, whose sizes fit the 16-bit
/// positions.
pub open spec fn queue_wf<P>(v: QueuePairView<P>) -> bool {
    &&& 1 <= v.sq.len() <= u16::MAX
    &&& v.sq_tail < v.sq.len()
    &&& v.sq_head < v.sq.len()
    &&& 1 <= v.cq_len <= u16::MAX
    &&& v.cq_head < v.cq_len
}

/// The position after `pos` in a ring of `len` slots.
pub open spec fn ring_next(pos: u16, len: nat) -> u16 {
    ((pos + 1) % (len as int)) as u16
}

/// The command of `opcode` with the driver's fields.
pub open spec fn io_command(opcode: NvmeOpcode, cmd_id: u16, ns_id: u32, lba: u64, blocks: u16, data_ptr: usize) -> NvmeCommand {
    NvmeCommand {
        opcode: opcode_value(opcode),
        command_id: cmd_id,
        ns_id,
        lba,
        blocks: if blocks == 0 { 0 } else { (blocks - 1) as u16 },
        prp1: data_ptr as u64,
        prp2: 0,
    }
}

/// The queue after `cmd` is placed in the submission ring, if there is room
/// before the head: the tail moves on, the doorbell takes the new tail, and
/// one more command is in flight.
pub open spec fn after_submit<P>(v: QueuePairView<P>, cmd: NvmeCommand) -> Option<QueuePairView<P>> {
    let next_tail = ring_next(v.sq_tail, v.sq.len());
    if next_tail == v.sq_head {
        None
    } else {
        Some(
            QueuePairView {
                sq: v.sq.update(v.sq_tail as int, cmd),
                sq_tail: next_tail,
                sq_doorbell: next_tail as u32,
                in_flight: v.in_flight.wrapping_add(1),
                stats: QueueStats { commands_submitted: v.stats.commands_submitted.wrapping_add(1), ..v.stats },
                ..v
            },
        )
    }
}

/// The outcome of submitting a command of `opcode` with the next command
/// id: the id and the queue after, or the queue with the id used up when
/// the ring is full.
pub open spec fn submit_outcome<P>(v: QueuePairView<P>, opcode: NvmeOpcode, ns_id: u32, lba: u64, blocks: u16, data_ptr: usize) -> (Option<u16>, QueuePairView<P>) {
    let id = v.next_cmd_id;
    let used = QueuePairView { next_cmd_id: id.wrapping_add(1), ..v };
    match after_submit(used, io_command(opcode, id, ns_id, lba, blocks, data_ptr)) {
        Some(w) => (Some(id), w),
        None => (None, used),
    }
}

/// The outcome of submitting a flush of namespace `ns_id` with the next
/// command id: the id and the queue after, or the queue with the id used up
/// when the ring is full.
pub open spec fn flush_outcome<P>(v: QueuePairView<P>, ns_id: u32) -> (Option<u16>, QueuePairView<P>) {
    let id = v.next_cmd_id;
    let used = QueuePairView { next_cmd_id: id.wrapping_add(1), ..v };
    let cmd = NvmeCommand { opcode: opcode_value(NvmeOpcode::Flush), command_id: id, ns_id, lba: 0, blocks: 0, prp1: 0, prp2: 0 };
    match after_submit(used, cmd) {
        Some(w) => (Some(id), w),
        None => (None, used),
    }
}

/// The statistics after a completion with latency `latency_ns`.
pub open spec fn stats_after_completion(s: QueueStats, latency_ns: u64) -> QueueStats {
    QueueStats {
        commands_completed: s.commands_completed.wrapping_add(1),
        total_latency_ns: s.total_latency_ns.wrapping_add(latency_ns),
        max_latency_ns: if latency_ns > s.max_latency_ns { latency_ns } else { s.max_latency_ns },
        ..s
    }
}

/// The snapshot of a queue's statistics: the average latency is the total
/// over the completed commands (0 with none).
pub open spec fn snapshot_of<P>(v: QueuePairView<P>) -> QueueStatsSnapshot {
    QueueStatsSnapshot {
        commands_submitted: v.stats.commands_submitted,
        commands_completed: v.stats.commands_completed,
        commands_in_flight: v.in_flight,
        bytes_read: v.stats.bytes_read,
        bytes_written: v.stats.bytes_written,
        avg_latency_ns: if v.stats.commands_completed > 0 {
            (v.stats.total_latency_ns / v.stats.commands_completed) as u64
        } else {
            0
        },
        max_latency_ns: v.stats.max_latency_ns,
        min_latency_ns: v.stats.min_latency_ns,
    }
}

impl<P> QueuePair<P> {
    /// A queue pair with empty rings of `sq_entries` and `cq_entries` slots,
    /// nothing in flight, and room for `max_depth` commands.
    pub fn new(id: usize, sq_entries: u16, cq_entries: u16, max_depth: u16) -> (q: Self)
        requires
            sq_entries >= 1,
            cq_entries >= 1,
            max_depth >= 1,
        ensures
            queue_wf(q@),
            q@ == (QueuePairView::<P> {
                id,
                sq: Seq::new(sq_entries as nat, |i: int| empty_command()),
                sq_tail: 0,
                sq_head: 0,
                cq_len: cq_entries as nat,
                cq_head: 0,
                cq_phase: true,
                sq_doorbell: 0,
                cq_doorbell: 0,
                pending: Map::empty(),
                next_cmd_id: 0,
                in_flight: 0,
                max_depth,
                active: true,
                stats: zero_stats(),
            }),
    {
        let mut sq: Vec<NvmeCommand> = Vec::new();
        let mut i: u16 = 0;
        while i < sq_entries
            invariant
                i <= sq_entries,
                sq@ == Seq::new(i as nat, |j: int| empty_command()),
            decreases sq_entries - i,
        {
            sq.push(NvmeCommand { opcode: 0, command_id: 0, ns_id: 0, lba: 0, blocks: 0, prp1: 0, prp2: 0 });
            assert(sq@ =~= Seq::new((i + 1) as nat, |j: int| empty_command()));
            i = i + 1;
        }
        let q = QueuePair {
            id,
            sq,
            sq_tail: 0,
            sq_head: 0,
            cq_len: cq_entries,
            cq_head: 0,
            cq_phase: true,
            sq_doorbell: 0,
            cq_doorbell: 0,
            pending: BTreeMap::new(),
            next_cmd_id: 0,
            in_flight: 0,
            max_depth,
            active: true,
            stats: QueueStats::default(),
        };
        assert(q@.pending =~= Map::<u16, PendingCommand<P>>::empty());
        q
    }

    /// The admin queue pair: queue 0 with room for 32 commands.
    pub fn new_admin(sq_entries: u16, cq_entries: u16) -> (q: Self)
        requires
            sq_entries >= 1,
            cq_entries >= 1,
        ensures
            queue_wf(q@),
            q@.id == 0,
            q@.max_depth == 32,
            q@.sq.len() == sq_entries,
            q@.cq_len == cq_entries,
            q@.in_flight == 0,
            q@.pending == Map::<u16, PendingCommand<P>>::empty(),
    {
        Self::new(0, sq_entries, cq_entries, 32)
    }

    /// Whether fewer commands than the maximum depth are in flight.
    pub fn has_space(&self) -> (b: bool)
        ensures
            b == (self@.in_flight < self@.max_depth),
    {
        self.in_flight < self.max_depth as u32
    }

    /// The next command id (ids wrap).
    fn allocate_cmd_id(&mut self) -> (id: u16)
        ensures
            id == old(self)@.next_cmd_id,
            final(self)@ == (QueuePairView { next_cmd_id: id.wrapping_add(1), ..old(self)@ }),
    {
        let id = self.next_cmd_id;
        self.next_cmd_id = self.next_cmd_id.wrapping_add(1);
        id
    }

    /// Places `cmd` in the submission ring unless it is full.
    fn submit_command(&mut self, cmd: NvmeCommand) -> (r: Option<u16>)
        requires
            queue_wf(old(self)@),
        ensures
            queue_wf(final(self)@),
            match after_submit(old(self)@, cmd) {
                Some(w) => r == Some(cmd.command_id) && final(self)@ == w,
                None => r is None && final(self)@ == old(self)@,
            },
    {
        let queue_size = self.sq.len() as u16;
        let next_tail = (self.sq_tail + 1) % queue_size;
        if next_tail == self.sq_head {
            return None;
        }
        let tail = self.sq_tail as usize;
        self.sq.set(tail, cmd);
        self.sq_tail = next_tail;
        self.sq_doorbell = next_tail as u32;
        self.in_flight = self.in_flight.wrapping_add(1);
        self.stats.commands_submitted = self.stats.commands_submitted.wrapping_add(1);
        Some(cmd.command_id)
    }

    /// Builds a command of `opcode` with the next id and submits it.
    fn submit_io(&mut self, opcode: NvmeOpcode, ns_id: u32, lba: u64, blocks: u16, data_ptr: usize) -> (r: Option<u16>)
        requires
            queue_wf(old(self)@),
        ensures
            queue_wf(final(self)@),
            (r, final(self)@) == submit_outcome(old(self)@, opcode, ns_id, lba, blocks, data_ptr),
    {
        let cmd_id = self.allocate_cmd_id();
        let cmd = NvmeCommand {
            opcode: opcode.value(),
            command_id: cmd_id,
            ns_id,
            lba,
            blocks: blocks.saturating_sub(1),
            prp1: data_ptr as u64,
            prp2: 0,
        };
        assert(cmd == io_command(opcode, cmd_id, ns_id, lba, blocks, data_ptr));
        self.submit_command(cmd)
    }

    /// Submits a read of `blocks` blocks at `lba` into `data_ptr`; `None`
    /// when the queue is at its depth (no id is used) or the ring is full.
    pub fn submit_read(&mut self, ns_id: u32, lba: u64, blocks: u16, data_ptr: usize, size: usize) -> (r: Option<u16>)
        requires
            queue_wf(old(self)@),
        ensures
            queue_wf(final(self)@),
            !(old(self)@.in_flight < old(self)@.max_depth) ==> r is None && final(self)@ == old(self)@,
            old(self)@.in_flight < old(self)@.max_depth ==> (r, final(self)@) == submit_outcome(
                old(self)@,
                NvmeOpcode::Read,
                ns_id,
                lba,
                blocks,
                data_ptr,
            ),
    {
        if !self.has_space() {
            return None;
        }
        self.submit_io(NvmeOpcode::Read, ns_id, lba, blocks, data_ptr)
    }

    /// Submits a write of `blocks` blocks at `lba` from `data_ptr`; `None`
    /// when the queue is at its depth (no id is used) or the ring is full.
    pub fn submit_write(&mut self, ns_id: u32, lba: u64, blocks: u16, data_ptr: usize, size: usize) -> (r: Option<u16>)
        requires
            queue_wf(old(self)@),
        ensures
            queue_wf(final(self)@),
            !(old(self)@.in_flight < old(self)@.max_depth) ==> r is None && final(self)@ == old(self)@,
            old(self)@.in_flight < old(self)@.max_depth ==> (r, final(self)@) == submit_outcome(
                old(self)@,
                NvmeOpcode::Write,
                ns_id,
                lba,
                blocks,
                data_ptr,
            ),
    {
        if !self.has_space() {
            return None;
        }
        self.submit_io(NvmeOpcode::Write, ns_id, lba, blocks, data_ptr)
    }

    /// Submits a flush of namespace `ns_id` (not limited by the depth);
    /// `None` when the ring is full.
    pub fn submit_flush(&mut self, ns_id: u32) -> (r: Option<u16>)
        requires
            queue_wf(old(self)@),
        ensures
            queue_wf(final(self)@),
            (r, final(self)@) == flush_outcome(old(self)@, ns_id),
    {
        let cmd_id = self.allocate_cmd_id();
        let cmd = NvmeCommand {
            opcode: NvmeOpcode::Flush.value(),
            command_id: cmd_id,
            ns_id,
            lba: 0,
            blocks: 0,
            prp1: 0,
            prp2: 0,
        };
        self.submit_command(cmd)
    }

    /// Records what a submitted command's completion needs.
    pub fn add_pending(&mut self, cmd_id: u16, pending: PendingCommand<P>)
        ensures
            final(self)@ == (QueuePairView { pending: old(self)@.pending.insert(cmd_id, pending), ..old(self)@ }),
    {
        self.pending.insert(cmd_id, pending);
    }

    /// Takes out what a command's completion needs, if it was recorded.
    pub fn complete_command(&mut self, cmd_id: u16) -> (r: Option<PendingCommand<P>>)
        ensures
            old(self)@.pending.contains_key(cmd_id) ==> r == Some(old(self)@.pending[cmd_id]),
            !old(self)@.pending.contains_key(cmd_id) ==> r is None,
            final(self)@ == (QueuePairView { pending: old(self)@.pending.remove(cmd_id), ..old(self)@ }),
    {
        let r = self.pending.remove(&cmd_id);
        r
    }

    /// The next completion: the entry `cqe` at the completion head when its
    /// phase tag shows it is new. A new entry moves the head on (flipping the expected phase when
    /// the head wraps), takes a command out of flight and is counted with
    /// its latency (read from the clock).
    pub fn poll_completion(&mut self, cqe: CompletionEntry) -> (r: Option<CompletionInfo>)
        requires
            queue_wf(old(self)@),
        ensures
            queue_wf(final(self)@),
            ({
                let v = old(self)@;
                if ((cqe.status & 1) == 1) != v.cq_phase {
                    r is None && final(self)@ == v
                } else {
                    let head = ring_next(v.cq_head, v.cq_len);
                    &&& r matches Some(c) && {
                        &&& c.command_id == cqe.command_id
                        &&& c.status == cqe.status >> 1
                        &&& c.result == cqe.cdw0
                        &&& v.pending.contains_key(cqe.command_id) ==> {
                            let p = v.pending[cqe.command_id];
                            c.submitted_at == p.submitted_at && c.is_write == p.is_write && c.bytes == p.bytes
                        }
                        &&& !v.pending.contains_key(cqe.command_id) ==> !c.is_write && c.bytes == 0
                    }
                    &&& exists|latency_ns: u64| final(self)@ == (QueuePairView {
                        cq_head: head,
                        cq_phase: if head == 0 { !v.cq_phase } else { v.cq_phase },
                        cq_doorbell: head as u32,
                        in_flight: v.in_flight.wrapping_sub(1),
                        stats: stats_after_completion(v.stats, latency_ns),
                        ..v
                    })
                }
            }),
    {
        let phase = cqe.status & 1;
        if (phase == 1) != self.cq_phase {
            return None;
        }
        let cmd_id = cqe.command_id;
        let status = cqe.status >> 1;
        let result = cqe.cdw0;
        let completion = match self.pending.get(&cmd_id) {
            Some(p) => CompletionInfo {
                command_id: cmd_id,
                status,
                result,
                submitted_at: p.submitted_at,
                is_write: p.is_write,
                bytes: p.bytes,
            },
            None => CompletionInfo {
                command_id: cmd_id,
                status,
                result,
                submitted_at: now(),
                is_write: false,
                bytes: 0,
            },
        };
        self.cq_head = (self.cq_head + 1) % self.cq_len;
        if self.cq_head == 0 {
            self.cq_phase = !self.cq_phase;
        }
        self.cq_doorbell = self.cq_head as u32;
        self.in_flight = self.in_flight.wrapping_sub(1);
        self.stats.commands_completed = self.stats.commands_completed.wrapping_add(1);
        let latency_ns = duration_nanos(instant_elapsed(&completion.submitted_at)) as u64;
        self.stats.total_latency_ns = self.stats.total_latency_ns.wrapping_add(latency_ns);
        if latency_ns > self.stats.max_latency_ns {
            self.stats.max_latency_ns = latency_ns;
        }
        proof {
            let v = old(self)@;
            let head = ring_next(v.cq_head, v.cq_len);
            assert(self@ == (QueuePairView {
                cq_head: head,
                cq_phase: if head == 0 { !v.cq_phase } else { v.cq_phase },
                cq_doorbell: head as u32,
                in_flight: v.in_flight.wrapping_sub(1),
                stats: stats_after_completion(v.stats, latency_ns),
                ..v
            }));
        }
        Some(completion)
    }

    /// A snapshot of the queue's statistics.
    pub fn get_stats(&self) -> (s: QueueStatsSnapshot)
        ensures
            s == snapshot_of(self@),
    {
        let completed = self.stats.commands_completed;
        let total_latency = self.stats.total_latency_ns;
        QueueStatsSnapshot {
            commands_submitted: self.stats.commands_submitted,
            commands_completed: completed,
            commands_in_flight: self.in_flight,
            bytes_read: self.stats.bytes_read,
            bytes_written: self.stats.bytes_written,
            avg_latency_ns: if completed > 0 {
                total_latency / completed
            } else {
                0
            },
            max_latency_ns: self.stats.max_latency_ns,
            min_latency_ns: self.stats.min_latency_ns,
        }
    }

    /// The number of commands in flight.
    pub fn queue_depth(&self) -> (d: u32)
        ensures
            d == self@.in_flight,
    {
        self.in_flight
    }

    /// The position of the next completion entry to read.
    pub fn cq_head(&self) -> (h: u16)
        ensures
            h == self@.cq_head,
    {
        self.cq_head
    }

    /// The value last written to the submission doorbell.
    pub fn sq_doorbell(&self) -> (d: u32)
        ensures
            d == self@.sq_doorbell,
    {
        self.sq_doorbell
    }

    /// The value last written to the completion doorbell.
    pub fn cq_doorbell(&self) -> (d: u32)
        ensures
            d == self@.cq_doorbell,
    {
        self.cq_doorbell
    }

    /// The command in submission slot `slot`.
    pub fn sq_entry(&self, slot: u16) -> (c: NvmeCommand)
        requires
            slot < self@.sq.len(),
        ensures
            c == self@.sq[slot as int],
    {
        self.sq[slot as usize]
    }
}

/// Queue I/O operations.
pub trait IoQueue {
    /// The queue's invariant.
    spec fn inv(&self) -> bool;

    /// Submits a read.
    fn read(&mut self, ns_id: u32, lba: u64, blocks: u16, data: usize, size: usize) -> (r: Option<u16>)
        requires
            old(self).inv(),
        ensures
            final(self).inv(),
    ;

    /// Submits a write.
    fn write(&mut self, ns_id: u32, lba: u64, blocks: u16, data: usize, size: usize) -> (r: Option<u16>)
        requires
            old(self).inv(),
        ensures
            final(self).inv(),
    ;

    /// Polls for a completion, given the entry at the completion head.
    fn poll(&mut self, cqe: CompletionEntry) -> (r: Option<CompletionInfo>)
        requires
            old(self).inv(),
        ensures
            final(self).inv(),
    ;

    /// The number of commands in flight.
    fn depth(&self) -> u32;
}

impl<P> IoQueue for QueuePair<P> {
    open spec fn inv(&self) -> bool {
        queue_wf(self@)
    }

    /// `submit_read`.
    fn read(&mut self, ns_id: u32, lba: u64, blocks: u16, data: usize, size: usize) -> (r: Option<u16>)
        ensures
            !(old(self)@.in_flight < old(self)@.max_depth) ==> r is None && final(self)@ == old(self)@,
            old(self)@.in_flight < old(self)@.max_depth ==> (r, final(self)@) == submit_outcome(
                old(self)@,
                NvmeOpcode::Read,
                ns_id,
                lba,
                blocks,
                data,
            ),
    {
        self.submit_read(ns_id, lba, blocks, data, size)
    }

    /// `submit_write`.
    fn write(&mut self, ns_id: u32, lba: u64, blocks: u16, data: usize, size: usize) -> (r: Option<u16>)
        ensures
            !(old(self)@.in_flight < old(self)@.max_depth) ==> r is None && final(self)@ == old(self)@,
            old(self)@.in_flight < old(self)@.max_depth ==> (r, final(self)@) == submit_outcome(
                old(self)@,
                NvmeOpcode::Write,
                ns_id,
                lba,
                blocks,
                data,
            ),
    {
        self.submit_write(ns_id, lba, blocks, data, size)
    }

    /// `poll_completion`.
    fn poll(&mut self, cqe: CompletionEntry) -> (r: Option<CompletionInfo>) {
        self.poll_completion(cqe)
    }

    /// `queue_depth`.
    fn depth(&self) -> (d: u32)
        ensures
            d == self@.in_flight,
    {
        self.queue_depth()
    }
}

/// The sum of a field over snapshots.
pub open spec fn sum_by(s: Seq<QueueStatsSnapshot>, f: spec_fn(QueueStatsSnapshot) -> int) -> int
    decreases s.len(),
{
    if s.len() == 0 {
        0
    } else {
        sum_by(s.drop_last(), f) + f(s.last())
    }
}

/// The largest maximum latency over snapshots (0 for none).
pub open spec fn max_latency_of(s: Seq<QueueStatsSnapshot>) -> u64
    decreases s.len(),
{
    if s.len() == 0 {
        0
    } else {
        let m = max_latency_of(s.drop_last());
        if s.last().max_latency_ns > m { s.last().max_latency_ns } else { m }
    }
}

/// The smallest minimum latency over snapshots (`u64::MAX` for none).
pub open spec fn min_latency_of(s: Seq<QueueStatsSnapshot>) -> u64
    decreases s.len(),
{
    if s.len() == 0 {
        u64::MAX
    } else {
        let m = min_latency_of(s.drop_last());
        if s.last().min_latency_ns < m { s.last().min_latency_ns } else { m }
    }
}

/// The fields summed over snapshots fit their widths.
pub open spec fn aggregate_fits(s: Seq<QueueStatsSnapshot>) -> bool {
    &&& sum_by(s, |x: QueueStatsSnapshot| x.commands_submitted as int) <= u64::MAX
    &&& sum_by(s, |x: QueueStatsSnapshot| x.commands_completed as int) <= u64::MAX
    &&& sum_by(s, |x: QueueStatsSnapshot| x.commands_in_flight as int) <= u32::MAX
    &&& sum_by(s, |x: QueueStatsSnapshot| x.bytes_read as int) <= u64::MAX
    &&& sum_by(s, |x: QueueStatsSnapshot| x.bytes_written as int) <= u64::MAX
    &&& sum_by(s, |x: QueueStatsSnapshot| x.avg_latency_ns as int) <= u64::MAX
}

/// The statistics of several queues together: counters summed, the average
/// latency the mean of the queues' averages, the extreme latencies the
/// extremes.
pub open spec fn aggregate_of(s: Seq<QueueStatsSnapshot>) -> QueueStatsSnapshot {
    let avg_sum = sum_by(s, |x: QueueStatsSnapshot| x.avg_latency_ns as int);
    QueueStatsSnapshot {
        commands_submitted: sum_by(s, |x: QueueStatsSnapshot| x.commands_submitted as int) as u64,
        commands_completed: sum_by(s, |x: QueueStatsSnapshot| x.commands_completed as int) as u64,
        commands_in_flight: sum_by(s, |x: QueueStatsSnapshot| x.commands_in_flight as int) as u32,
        bytes_read: sum_by(s, |x: QueueStatsSnapshot| x.bytes_read as int) as u64,
        bytes_written: sum_by(s, |x: QueueStatsSnapshot| x.bytes_written as int) as u64,
        avg_latency_ns: if s.len() > 0 { (avg_sum / (s.len() as int)) as u64 } else { avg_sum as u64 },
        max_latency_ns: max_latency_of(s),
        min_latency_ns: min_latency_of(s),
    }
}

/// Sums up to a prefix stay below the whole sum.
proof fn lemma_sum_by_prefix(s: Seq<QueueStatsSnapshot>, f: spec_fn(QueueStatsSnapshot) -> int, k: int)
    requires
        0 <= k <= s.len(),
        forall|x: QueueStatsSnapshot| #[trigger] f(x) >= 0,
    ensures
        0 <= sum_by(s.take(k), f) <= sum_by(s, f),
    decreases s.len() - k,
{
    if k < s.len() {
        lemma_sum_by_prefix(s, f, k + 1);
        assert(s.take(k + 1).drop_last() =~= s.take(k));
        assert(s.take(k + 1).last() == s[k]);
    } else {
        assert(s.take(k) =~= s);
    }
    lemma_sum_by_nonneg(s.take(k), f);
}

/// Sums of non-negative fields are non-negative.
proof fn lemma_sum_by_nonneg(s: Seq<QueueStatsSnapshot>, f: spec_fn(QueueStatsSnapshot) -> int)
    requires
        forall|x: QueueStatsSnapshot| #[trigger] f(x) >= 0,
    ensures
        sum_by(s, f) >= 0,
    decreases s.len(),
{
    if s.len() > 0 {
        lemma_sum_by_nonneg(s.drop_last(), f);
        assert(f(s.last()) >= 0);
    }
}

/// Adds up the statistics of several queues.
pub fn aggregate_stats(snaps: &Vec<QueueStatsSnapshot>) -> (t: QueueStatsSnapshot)
    requires
        aggregate_fits(snaps@),
    ensures
        t == aggregate_of(snaps@),
{
    let ghost s = snaps@;
    let ghost f_sub = |x: QueueStatsSnapshot| x.commands_submitted as int;
    let ghost f_comp = |x: QueueStatsSnapshot| x.commands_completed as int;
    let ghost f_fl = |x: QueueStatsSnapshot| x.commands_in_flight as int;
    let ghost f_rd = |x: QueueStatsSnapshot| x.bytes_read as int;
    let ghost f_wr = |x: QueueStatsSnapshot| x.bytes_written as int;
    let ghost f_avg = |x: QueueStatsSnapshot| x.avg_latency_ns as int;
    let mut total = QueueStatsSnapshot {
        commands_submitted: 0,
        commands_completed: 0,
        commands_in_flight: 0,
        bytes_read: 0,
        bytes_written: 0,
        avg_latency_ns: 0,
        max_latency_ns: 0,
        min_latency_ns: u64::MAX,
    };
    let mut i: usize = 0;
    while i < snaps.len()
        invariant
            s == snaps@,
            aggregate_fits(s),
            f_sub == (|x: QueueStatsSnapshot| x.commands_submitted as int),
            f_comp == (|x: QueueStatsSnapshot| x.commands_completed as int),
            f_fl == (|x: QueueStatsSnapshot| x.commands_in_flight as int),
            f_rd == (|x: QueueStatsSnapshot| x.bytes_read as int),
            f_wr == (|x: QueueStatsSnapshot| x.bytes_written as int),
            f_avg == (|x: QueueStatsSnapshot| x.avg_latency_ns as int),
            0 <= i <= s.len(),
            total.commands_submitted == sum_by(s.take(i as int), f_sub),
            total.commands_completed == sum_by(s.take(i as int), f_comp),
            total.commands_in_flight == sum_by(s.take(i as int), f_fl),
            total.bytes_read == sum_by(s.take(i as int), f_rd),
            total.bytes_written == sum_by(s.take(i as int), f_wr),
            total.avg_latency_ns == sum_by(s.take(i as int), f_avg),
            total.max_latency_ns == max_latency_of(s.take(i as int)),
            total.min_latency_ns == min_latency_of(s.take(i as int)),
        decreases s.len() - i,
    {
        let st = snaps[i];
        proof {
            let t1 = s.take(i as int + 1);
            assert forall|x: QueueStatsSnapshot| #[trigger] f_sub(x) >= 0 && #[trigger] f_comp(x) >= 0 by {}
            assert forall|x: QueueStatsSnapshot| #[trigger] f_fl(x) >= 0 && #[trigger] f_rd(x) >= 0 by {}
            assert forall|x: QueueStatsSnapshot| #[trigger] f_wr(x) >= 0 && #[trigger] f_avg(x) >= 0 by {}
            assert(t1.drop_last() =~= s.take(i as int));
            assert(t1.last() == st);
            lemma_sum_by_prefix(s, f_sub, i as int + 1);
            lemma_sum_by_prefix(s, f_comp, i as int + 1);
            lemma_sum_by_prefix(s, f_fl, i as int + 1);
            lemma_sum_by_prefix(s, f_rd, i as int + 1);
            lemma_sum_by_prefix(s, f_wr, i as int + 1);
            lemma_sum_by_prefix(s, f_avg, i as int + 1);
        }
        total.commands_submitted = total.commands_submitted + st.commands_submitted;
        total.commands_completed = total.commands_completed + st.commands_completed;
        total.commands_in_flight = total.commands_in_flight + st.commands_in_flight;
        total.bytes_read = total.bytes_read + st.bytes_read;
        total.bytes_written = total.bytes_written + st.bytes_written;
        total.avg_latency_ns = total.avg_latency_ns + st.avg_latency_ns;
        if st.max_latency_ns > total.max_latency_ns {
            total.max_latency_ns = st.max_latency_ns;
        }
        if st.min_latency_ns < total.min_latency_ns {
            total.min_latency_ns = st.min_latency_ns;
        }
        i = i + 1;
    }
    assert(s.take(s.len() as int) =~= s);
    if snaps.len() > 0 {
        total.avg_latency_ns = total.avg_latency_ns / (snaps.len() as u64);
    }
    total
}

/// I/O queue manager.
pub struct IoQueueManager<P> {
    queues: Vec<QueuePair<P>>,
    queue_selector: usize,
}

impl<P> IoQueueManager<P> {
    /// The queues, as plain values.
    pub closed spec fn queues_spec(&self) -> Seq<QueuePairView<P>> {
        self.queues@.map_values(|q: QueuePair<P>| q@)
    }

    /// The round-robin selector.
    pub closed spec fn selector(&self) -> usize {
        self.queue_selector
    }

    /// A manager of `queues`, selecting from the first.
    pub fn new(queues: Vec<QueuePair<P>>) -> (m: Self)
        ensures
            m.queues_spec() == queues@.map_values(|q: QueuePair<P>| q@),
            m.selector() == 0,
    {
        IoQueueManager { queues, queue_selector: 0 }
    }

    /// The number of queues.
    pub fn num_queues(&self) -> (n: usize)
        ensures
            n == self.queues_spec().len(),
    {
        self.queues.len()
    }

    /// The index of the queue whose turn it is (the selector wraps).
    pub fn select_queue_rr(&mut self) -> (idx: usize)
        requires
            old(self).queues_spec().len() > 0,
        ensures
            idx == (old(self).selector() as int) % (old(self).queues_spec().len() as int),
            final(self).selector() == old(self).selector().wrapping_add(1),
            final(self).queues_spec() == old(self).queues_spec(),
    {
        let idx = self.queue_selector % self.queues.len();
        self.queue_selector = self.queue_selector.wrapping_add(1);
        idx
    }

    /// The queue with index `id`, if there is one.
    pub fn get_queue(&self, id: usize) -> (r: Option<&QueuePair<P>>)
        ensures
            id < self.queues_spec().len() ==> (r matches Some(q) && q@ == self.queues_spec()[id as int]),
            id >= self.queues_spec().len() ==> r is None,
    {
        if id < self.queues.len() {
            Some(&self.queues[id])
        } else {
            None
        }
    }

    /// Every queue's statistics, in queue order.
    pub fn get_all_stats(&self) -> (v: Vec<QueueStatsSnapshot>)
        ensures
            v@ == self.queues_spec().map_values(|q: QueuePairView<P>| snapshot_of(q)),
    {
        let mut v: Vec<QueueStatsSnapshot> = Vec::new();
        let mut i: usize = 0;
        while i < self.queues.len()
            invariant
                0 <= i <= self.queues@.len(),
                v@ == self.queues_spec().take(i as int).map_values(|q: QueuePairView<P>| snapshot_of(q)),
            decreases self.queues@.len() - i,
        {
            v.push(self.queues[i].get_stats());
            proof {
                assert(self.queues_spec()[i as int] == self.queues@[i as int]@);
                assert(self.queues_spec().take(i as int + 1).map_values(|q: QueuePairView<P>| snapshot_of(q))
                    =~= self.queues_spec().take(i as int).map_values(|q: QueuePairView<P>| snapshot_of(q)).push(
                    snapshot_of(self.queues_spec()[i as int])));
            }
            i = i + 1;
        }
        assert(self.queues_spec().take(self.queues@.len() as int) =~= self.queues_spec());
        v
    }

    /// The statistics of all queues together (see `aggregate_of`).
    pub fn get_aggregate_stats(&self) -> (t: QueueStatsSnapshot)
        requires
            aggregate_fits(self.queues_spec().map_values(|q: QueuePairView<P>| snapshot_of(q))),
        ensures
            t == aggregate_of(self.queues_spec().map_values(|q: QueuePairView<P>| snapshot_of(q))),
    {
        let all = self.get_all_stats();
        aggregate_stats(&all)
    }
}

} // verus!
