//! The `nvme:` scheme: namespaces, open handles, queue selection, and what
//! each request on a handle does to the queues.
//!
//! Requests arrive as packets and are answered through the scheme file;
//! the caller reads them, maps buffers for zero-copy transfers and sends
//! the answers. Each method here makes the decision a request needs and
//! answers with a value or an errno.
use vstd::prelude::*;
use std::collections::BTreeMap;
use std::time::Instant;
use crate::inteld::gal_backend::{parse_u64, split_path, split_slash};
use super::config::{DriverConfig, IoSchedulerType, parse_bounded};
use super::queue::{CompletionInfo, PendingCommand, QueuePair, QueuePairView, queue_wf, submit_outcome, flush_outcome};
use super::time::now;
use crate::nvme_core::runqueue::NvmeOpcode;

verus! {

broadcast use {vstd::std_specs::btree::group_btree_axioms, vstd::laws_cmp::group_laws_cmp};

/// Maximum number of namespaces.
pub const MAX_NAMESPACES: usize = 256;

/// No such file or directory.
pub const ENOENT: i32 = 2;

/// I/O error.
pub const EIO: i32 = 5;

/// Bad handle.
pub const EBADF: i32 = 9;

/// Try again.
pub const EAGAIN: i32 = 11;

/// Bad address.
pub const EFAULT: i32 = 14;

/// No such device.
pub const ENODEV: i32 = 19;

/// Is a directory.
pub const EISDIR: i32 = 21;

/// Invalid argument.
pub const EINVAL: i32 = 22;

/// Function not implemented.
pub const ENOSYS: i32 = 38;

/// Seek from the start.
pub const SEEK_SET: i32 = 0;

/// Seek from the current offset.
pub const SEEK_CUR: i32 = 1;

/// Seek from the end.
pub const SEEK_END: i32 = 2;

/// NVMe namespace information.
#[derive(Debug, Clone, Copy, PartialEq, Eq, Structural)]
pub struct NamespaceInfo {
    pub id: u32,
    /// Total size in bytes.
    pub size: u64,
    /// Block size in bytes.
    pub block_size: u32,
    /// Number of blocks.
    pub blocks: u64,
    pub optimal_write_size: u32,
    pub max_transfer_size: u32,
}

/// A namespace's information from what the controller reports; sizes it
/// does not report default to 128 KiB for writes and 1 MiB per transfer.
pub fn namespace_info(
    id: u32,
    size: u64,
    block_size: u32,
    blocks: u64,
    optimal_write_size: Option<u32>,
    max_transfer_size: Option<u32>,
) -> (n: NamespaceInfo)
    ensures
        n == (NamespaceInfo {
            id,
            size,
            block_size,
            blocks,
            optimal_write_size: match optimal_write_size {
                Some(v) => v,
                None => 131072u32,
            },
            max_transfer_size: match max_transfer_size {
                Some(v) => v,
                None => 1048576u32,
            },
        }),
{
    NamespaceInfo {
        id,
        size,
        block_size,
        blocks,
        optimal_write_size: match optimal_write_size {
            Some(v) => v,
            None => 128 * 1024,
        },
        max_transfer_size: match max_transfer_size {
            Some(v) => v,
            None => 1024 * 1024,
        },
    }
}

/// Handle to an open NVMe namespace.
pub struct NvmeHandle {
    /// Namespace id.
    pub ns_id: u32,
    /// Namespace info.
    pub ns_info: NamespaceInfo,
    /// Queue assigned to the handle.
    pub queue_id: usize,
    /// Current offset for sequential operations.
    pub offset: u64,
    /// Handle flags.
    pub flags: u32,
    /// Creation time.
    pub created_at: Instant,
}

/// Submission queue entry with priority.
#[derive(Debug)]
pub struct SubmissionEntry {
    pub command_id: u16,
    pub priority: u8,
    pub deadline_us: u64,
    pub submitted_at: Instant,
}

/// The sizes a namespace's stat reports.
#[derive(Debug, Clone, Copy, PartialEq, Eq, Structural)]
pub struct NamespaceStat {
    /// Size in bytes.
    pub size: u64,
    /// Block size in bytes.
    pub block_size: u64,
    /// Number of blocks.
    pub blocks: u64,
}

/// Where a read or write goes: the queue, the namespace and the blocks.
#[derive(Debug, Clone, Copy, PartialEq, Eq, Structural)]
pub struct IoTarget {
    pub queue_id: usize,
    pub ns_id: u32,
    pub lba: u64,
    pub blocks: u16,
}

/// The scheme as plain values.
pub struct NvmeSchemeView<P> {
    pub pci_handle: usize,
    pub namespaces: Map<u32, NamespaceInfo>,
    pub handles: Map<u64, NvmeHandle>,
    pub next_handle_id: u64,
    pub queues: Seq<QueuePairView<P>>,
    pub queue_counter: usize,
    pub config: DriverConfig,
    pub admin: QueuePairView<P>,
}

/// NVMe scheme state.
pub struct NvmeScheme<P> {
    pci_handle: usize,
    namespaces: BTreeMap<u32, NamespaceInfo>,
    handles: BTreeMap<u64, NvmeHandle>,
    next_handle_id: u64,
    /// I/O queue pairs (one per CPU core).
    pub queues: Vec<QueuePair<P>>,
    queue_counter: usize,
    config: DriverConfig,
    admin_queue: QueuePair<P>,
}

impl<P> View for NvmeScheme<P> {
    type V = NvmeSchemeView<P>;

    closed spec fn view(&self) -> NvmeSchemeView<P> {
        NvmeSchemeView {
            pci_handle: self.pci_handle,
            namespaces: self.namespaces@,
            handles: self.handles@,
            next_handle_id: self.next_handle_id,
            queues: self.queues@.map_values(|q: QueuePair<P>| q@),
            queue_counter: self.queue_counter,
            config: self.config,
            admin: self.admin_queue@,
        }
    }
}

/// The scheme's invariant: queues exist and are well formed, namespaces
/// are filed under their ids and have a block size, and each handle names
/// a queue and a namespace with a block size.
pub open spec fn scheme_wf<P>(v: NvmeSchemeView<P>) -> bool {
    &&& v.queues.len() > 0
    &&& forall|i: int| 0 <= i < v.queues.len() ==> queue_wf(#[trigger] v.queues[i])
    &&& queue_wf(v.admin)
    &&& forall|id: u32| #[trigger] v.namespaces.contains_key(id) ==> v.namespaces[id].id == id
        && v.namespaces[id].block_size > 0
    &&& forall|h: u64| #[trigger] v.handles.contains_key(h) ==> v.handles[h].queue_id < v.queues.len()
        && v.handles[h].ns_info.block_size > 0
}

/// The namespaces filed by id (a later one with the same id wins).
pub open spec fn namespace_map(ns: Seq<NamespaceInfo>) -> Map<u32, NamespaceInfo>
    decreases ns.len(),
{
    if ns.len() == 0 {
        Map::empty()
    } else {
        namespace_map(ns.drop_last()).insert(ns.last().id, ns.last())
    }
}

/// The first piece of a path that is not empty.
pub open spec fn first_piece(ps: Seq<Seq<char>>) -> Option<Seq<char>>
    decreases ps.len(),
{
    if ps.len() == 0 {
        None
    } else if ps[0].len() > 0 {
        Some(ps[0])
    } else {
        first_piece(ps.drop_first())
    }
}

/// What opening a path answers before a handle is made: the namespace id
/// it names, or the errno.
pub open spec fn open_target(path: Seq<char>, namespaces: Map<u32, NamespaceInfo>) -> Result<u32, i32> {
    match first_piece(split_slash(path)) {
        None => Err(EISDIR),
        Some(p) => match parse_bounded(p, u32::MAX as int) {
            None => Err(ENOENT),
            Some(n) => if namespaces.contains_key(n as u32) {
                Ok(n as u32)
            } else {
                Err(ENODEV)
            },
        },
    }
}

/// The block count of a transfer of `size` bytes: whole blocks, rounded
/// up, cut to 16 bits.
pub open spec fn blocks_for(size: usize, block_size: u32) -> u16 {
    ((size as int + block_size - 1) / (block_size as int)) as u16
}

/// The queue an I/O on a handle with `queue_id` goes to, and the selector
/// after: round-robin for direct and round-robin scheduling, the handle's
/// queue for CPU affinity, and for priority and deadline scheduling the
/// handle's queue capped at the last.
pub open spec fn selected_queue(scheduler: IoSchedulerType, counter: usize, len: nat, queue_id: usize) -> (usize, usize) {
    match scheduler {
        IoSchedulerType::Direct | IoSchedulerType::RoundRobin => (
            ((counter as int) % (len as int)) as usize,
            counter.wrapping_add(1),
        ),
        IoSchedulerType::CpuAffinity => (queue_id, counter),
        IoSchedulerType::Priority | IoSchedulerType::Deadline => (
            if len > 1 {
                if queue_id <= len - 1 { queue_id } else { (len - 1) as usize }
            } else {
                0
            },
            counter,
        ),
    }
}

/// The decimal digits of `n` as ASCII bytes.
pub open spec fn decimal(n: nat) -> Seq<u8>
    decreases n,
{
    if n < 10 {
        seq![(48 + n) as u8]
    } else {
        decimal(n / 10).push((48 + n % 10) as u8)
    }
}

/// The path of a namespace: `nvme:<id>/`.
pub open spec fn namespace_path(ns_id: u32) -> Seq<u8> {
    seq![110u8, 118u8, 109u8, 101u8, 58u8] + decimal(ns_id as nat) + seq![47u8]
}

/// Appends the decimal digits of `n`.
fn push_decimal(v: &mut Vec<u8>, n: u32)
    ensures
        final(v)@ == old(v)@ + decimal(n as nat),
    decreases n,
{
    if n >= 10 {
        push_decimal(v, n / 10);
    }
    v.push(48 + (n % 10) as u8);
    proof {
        if n < 10 {
            assert(decimal(n as nat) =~= seq![(48 + n) as u8]);
        }
    }
    assert(v@ =~= old(v)@ + decimal(n as nat));
}

/// The new offset of a seek: from the start, from the current offset or
/// from the end (wrapping in 64 bits); `None` for another `whence`.
pub open spec fn seek_target(whence: i32, offset: i64, current: u64, size: u64) -> Option<u64> {
    if whence == SEEK_SET {
        Some(offset as u64)
    } else if whence == SEEK_CUR {
        Some((current as i64).wrapping_add(offset) as u64)
    } else if whence == SEEK_END {
        Some((size as i64).wrapping_add(offset) as u64)
    } else {
        None
    }
}

/// The answer to a finished command: its byte count on success, else an
/// I/O error.
pub open spec fn completion_reply(status: u16, bytes: usize) -> Result<usize, i32> {
    if status == 0 {
        Ok(bytes)
    } else {
        Err(EIO)
    }
}

impl<P> NvmeScheme<P> {
    /// A scheme over the controller's namespaces, its I/O queue pairs and
    /// its admin queue pair, with no handle open.
    pub fn new(
        pci_handle: usize,
        namespaces: Vec<NamespaceInfo>,
        queues: Vec<QueuePair<P>>,
        admin_queue: QueuePair<P>,
        config: DriverConfig,
    ) -> (s: Self)
        requires
            queues@.len() > 0,
            forall|i: int| 0 <= i < queues@.len() ==> queue_wf(#[trigger] queues@[i]@),
            queue_wf(admin_queue@),
            forall|i: int| 0 <= i < namespaces@.len() ==> (#[trigger] namespaces@[i]).block_size > 0,
        ensures
            scheme_wf(s@),
            s@.pci_handle == pci_handle,
            s@.namespaces == namespace_map(namespaces@),
            s@.handles == Map::<u64, NvmeHandle>::empty(),
            s@.next_handle_id == 1,
            s@.queues == queues@.map_values(|q: QueuePair<P>| q@),
            s@.queue_counter == 0,
            s@.config == config,
            s@.admin == admin_queue@,
    {
        let mut map: BTreeMap<u32, NamespaceInfo> = BTreeMap::new();
        let mut i: usize = 0;
        while i < namespaces.len()
            invariant
                0 <= i <= namespaces@.len(),
                map@ == namespace_map(namespaces@.take(i as int)),
                forall|j: int| 0 <= j < namespaces@.len() ==> (#[trigger] namespaces@[j]).block_size > 0,
                forall|id: u32| #[trigger] map@.contains_key(id) ==> map@[id].id == id && map@[id].block_size > 0,
            decreases namespaces@.len() - i,
        {
            let ns = namespaces[i];
            map.insert(ns.id, ns);
            assert(namespaces@.take(i as int + 1).drop_last() =~= namespaces@.take(i as int));
            assert(namespaces@.take(i as int + 1).last() == ns);
            i = i + 1;
        }
        assert(namespaces@.take(namespaces@.len() as int) =~= namespaces@);
        let s = NvmeScheme {
            pci_handle,
            namespaces: map,
            handles: BTreeMap::new(),
            next_handle_id: 1,
            queues,
            queue_counter: 0,
            config,
            admin_queue,
        };
        assert(s@.handles =~= Map::<u64, NvmeHandle>::empty());
        s
    }

    /// The PCI handle the answers go through.
    pub fn pci_handle(&self) -> (h: usize)
        ensures
            h == self@.pci_handle,
    {
        self.pci_handle
    }

    /// The interrupt vector of a queue: MSI-X vector `queue_id + 1`
    /// (vector 0 is the admin queue's), cut to 16 bits.
    pub fn get_queue_irq(&self, queue_id: usize) -> (irq: u16)
        requires
            queue_id < usize::MAX,
        ensures
            irq == (queue_id + 1) as u16,
    {
        (queue_id + 1) as u16
    }

    /// Picks the queue for an I/O on a handle with `queue_id` (see
    /// `selected_queue`).
    fn select_queue(&mut self, queue_id: usize) -> (q: usize)
        requires
            scheme_wf(old(self)@),
            queue_id < old(self)@.queues.len(),
        ensures
            scheme_wf(final(self)@),
            q < old(self)@.queues.len(),
            (q, final(self)@.queue_counter) == selected_queue(
                old(self)@.config.scheduler,
                old(self)@.queue_counter,
                old(self)@.queues.len(),
                queue_id,
            ),
            final(self)@ == (NvmeSchemeView { queue_counter: final(self)@.queue_counter, ..old(self)@ }),
    {
        let n = self.queues.len();
        match self.config.scheduler {
            IoSchedulerType::Direct | IoSchedulerType::RoundRobin => {
                let q = self.queue_counter % n;
                self.queue_counter = self.queue_counter.wrapping_add(1);
                q
            },
            IoSchedulerType::CpuAffinity => queue_id,
            IoSchedulerType::Priority | IoSchedulerType::Deadline => {
                if n > 1 {
                    if queue_id <= n - 1 {
                        queue_id
                    } else {
                        n - 1
                    }
                } else {
                    0
                }
            },
        }
    }

    /// Opens the namespace a path names: the path's first non-empty piece
    /// is the namespace id. A new handle gets the next handle id, the
    /// round-robin queue and offset 0; the answer is the handle id.
    pub fn handle_open(&mut self, path: &str, flags: usize) -> (r: Result<usize, i32>)
        requires
            scheme_wf(old(self)@),
        ensures
            scheme_wf(final(self)@),
            ({
                let v = old(self)@;
                match open_target(path@, v.namespaces) {
                    Err(e) => r == Err::<usize, i32>(e) && final(self)@ == v,
                    Ok(ns_id) => {
                        let hid = v.next_handle_id;
                        let h = final(self)@.handles[hid];
                        &&& r == Ok::<usize, i32>(hid as usize)
                        &&& final(self)@ == (NvmeSchemeView {
                            handles: v.handles.insert(hid, h),
                            next_handle_id: hid.wrapping_add(1),
                            queue_counter: v.queue_counter.wrapping_add(1),
                            ..v
                        })
                        &&& h.ns_id == ns_id
                        &&& h.ns_info == v.namespaces[ns_id]
                        &&& h.queue_id == (v.queue_counter as int) % (v.queues.len() as int)
                        &&& h.offset == 0
                        &&& h.flags == flags as u32
                    },
                }
            }),
    {
        let parts = split_path(path);
        let ghost ps = split_slash(path@);
        let mut i: usize = 0;
        assert(ps.subrange(0, ps.len() as int) =~= ps);
        while i < parts.len() && parts[i].len() == 0
            invariant
                parts@.len() == ps.len(),
                forall|j: int| 0 <= j < parts@.len() ==> #[trigger] parts@[j]@ == ps[j],
                0 <= i <= ps.len(),
                first_piece(ps) == first_piece(ps.subrange(i as int, ps.len() as int)),
            decreases ps.len() - i,
        {
            assert(ps.subrange(i as int + 1, ps.len() as int) =~= ps.subrange(i as int, ps.len() as int).drop_first());
            i = i + 1;
        }
        if i == parts.len() {
            assert(ps.subrange(i as int, ps.len() as int).len() == 0);
            return Err(EISDIR);
        }
        assert(first_piece(ps) == Some(ps[i as int]));
        let ns_id: u32 = match parse_u64(&parts[i], 10) {
            Some(n) => if n <= u32::MAX as u64 {
                n as u32
            } else {
                return Err(ENOENT);
            },
            None => {
                return Err(ENOENT);
            },
        };
        let ns_info = match self.namespaces.get(&ns_id) {
            Some(info) => *info,
            None => {
                return Err(ENODEV);
            },
        };
        let queue_id = self.queue_counter % self.queues.len();
        self.queue_counter = self.queue_counter.wrapping_add(1);
        let handle_id = self.next_handle_id;
        self.next_handle_id = self.next_handle_id.wrapping_add(1);
        let handle = NvmeHandle { ns_id, ns_info, queue_id, offset: 0, flags: flags as u32, created_at: now() };
        self.handles.insert(handle_id, handle);
        Ok(handle_id as usize)
    }

    /// Where a read or write of `size` bytes at byte `offset` on a handle
    /// goes: the selected queue, and the blocks from `offset / block_size`.
    pub fn io_target(&mut self, handle_id: u64, offset: u64, size: usize) -> (r: Result<IoTarget, i32>)
        requires
            scheme_wf(old(self)@),
        ensures
            scheme_wf(final(self)@),
            ({
                let v = old(self)@;
                if !v.handles.contains_key(handle_id) {
                    r == Err::<IoTarget, i32>(EBADF) && final(self)@ == v
                } else {
                    let h = v.handles[handle_id];
                    let (q, counter) = selected_queue(v.config.scheduler, v.queue_counter, v.queues.len(), h.queue_id);
                    &&& r == Ok::<IoTarget, i32>(IoTarget {
                        queue_id: q,
                        ns_id: h.ns_info.id,
                        lba: (offset / (h.ns_info.block_size as u64)) as u64,
                        blocks: blocks_for(size, h.ns_info.block_size),
                    })
                    &&& q < v.queues.len()
                    &&& final(self)@ == (NvmeSchemeView { queue_counter: counter, ..v })
                }
            }),
    {
        let (queue_id, ns_id, block_size) = match self.handles.get(&handle_id) {
            Some(h) => (h.queue_id, h.ns_info.id, h.ns_info.block_size),
            None => {
                return Err(EBADF);
            },
        };
        let q = self.select_queue(queue_id);
        let lba = offset / block_size as u64;
        let bs = block_size as usize;
        let whole = size / bs;
        assert(size % bs != 0 ==> whole < usize::MAX) by (nonlinear_arith)
            requires
                whole == size / bs,
                bs >= 1,
                size <= usize::MAX,
        {
            if size % bs != 0 {
                assert(bs >= 2);
                assert(whole * bs <= size);
                assert(whole * 2 <= whole * bs);
            }
        }
        let blocks_wide = if size % bs == 0 { whole } else { whole + 1 };
        proof {
            let b = block_size as int;
            let s = size as int;
            assert((s + b - 1) / b == (if s % b == 0 { s / b } else { s / b + 1 })) by (nonlinear_arith)
                requires b > 0, s >= 0;
        }
        Ok(IoTarget { queue_id: q, ns_id, lba, blocks: blocks_wide as u16 })
    }

    /// Whether a buffer address asks for a zero-copy transfer: zero copy is
    /// on and the address has its low bit set (the rest is the physical
    /// address).
    pub fn zero_copy_requested(&self, buf: usize) -> (b: bool)
        ensures
            b == (self@.config.zero_copy && buf & 1 == 1),
    {
        self.config.zero_copy && buf & 1 == 1
    }

    /// Submits the read or write for `target`, recording `payload` for its
    /// completion; the queue being full answers `EAGAIN` and hands the
    /// payload back.
    pub fn submit_io(&mut self, target: IoTarget, data_ptr: usize, size: usize, is_write: bool, payload: P) -> (r: Result<u16, (i32, P)>)
        requires
            scheme_wf(old(self)@),
            target.queue_id < old(self)@.queues.len(),
        ensures
            scheme_wf(final(self)@),
            ({
                let v = old(self)@;
                let q = v.queues[target.queue_id as int];
                let op = if is_write { NvmeOpcode::Write } else { NvmeOpcode::Read };
                let (id, after) = submit_outcome(q, op, target.ns_id, target.lba, target.blocks, data_ptr);
                if !(q.in_flight < q.max_depth) {
                    (r matches Err((e, p)) && e == EAGAIN && p == payload) && final(self)@ == v
                } else {
                    match id {
                        None => (r matches Err((e, p)) && e == EAGAIN && p == payload)
                            && final(self)@ == (NvmeSchemeView { queues: v.queues.update(target.queue_id as int, after), ..v }),
                        Some(cid) => r matches Ok(c) && c == cid
                            && final(self)@.queues[target.queue_id as int].pending.contains_key(cid)
                            && final(self)@.queues[target.queue_id as int].pending[cid].payload == payload
                            && final(self)@.queues[target.queue_id as int].pending[cid].is_write == is_write
                            && final(self)@.queues[target.queue_id as int].pending[cid].bytes == size
                            && final(self)@.queues[target.queue_id as int] == (QueuePairView {
                                pending: after.pending.insert(cid, final(self)@.queues[target.queue_id as int].pending[cid]),
                                ..after
                            })
                            && final(self)@ == (NvmeSchemeView {
                                queues: v.queues.update(target.queue_id as int, final(self)@.queues[target.queue_id as int]),
                                ..v
                            }),
                    }
                }
            }),
    {
        let qi = target.queue_id;
        let ghost v = self@;
        let mut queue = self.queues.remove(qi);
        let submitted = if is_write {
            queue.submit_write(target.ns_id, target.lba, target.blocks, data_ptr, size)
        } else {
            queue.submit_read(target.ns_id, target.lba, target.blocks, data_ptr, size)
        };
        let r = match submitted {
            Some(cmd_id) => {
                queue.add_pending(cmd_id, PendingCommand { payload, submitted_at: now(), is_write, bytes: size });
                Ok(cmd_id)
            },
            None => Err((EAGAIN, payload)),
        };
        self.queues.insert(qi, queue);
        proof {
            assert(self@.queues =~= v.queues.update(qi as int, self.queues@[qi as int]@));
            if !(v.queues[qi as int].in_flight < v.queues[qi as int].max_depth) {
                assert(self@.queues =~= v.queues);
            }
        }
        r
    }

    /// The sizes a handle's namespace reports.
    pub fn handle_fstat(&self, handle_id: u64) -> (r: Result<NamespaceStat, i32>)
        ensures
            !self@.handles.contains_key(handle_id) ==> r == Err::<NamespaceStat, i32>(EBADF),
            self@.handles.contains_key(handle_id) ==> {
                let info = self@.handles[handle_id].ns_info;
                r == Ok::<NamespaceStat, i32>(NamespaceStat { size: info.size, block_size: info.block_size as u64, blocks: info.blocks })
            },
    {
        match self.handles.get(&handle_id) {
            Some(h) => Ok(NamespaceStat {
                size: h.ns_info.size,
                block_size: h.ns_info.block_size as u64,
                blocks: h.ns_info.blocks,
            }),
            None => Err(EBADF),
        }
    }

    /// Writes as much of the handle's path `nvme:<id>/` as fits into `buf`;
    /// the answer is the number of bytes written.
    pub fn handle_fpath(&self, handle_id: u64, buf: &mut [u8]) -> (r: Result<usize, i32>)
        ensures
            !self@.handles.contains_key(handle_id) ==> r == Err::<usize, i32>(EBADF) && final(buf)@ == old(buf)@,
            self@.handles.contains_key(handle_id) ==> {
                let path = namespace_path(self@.handles[handle_id].ns_id);
                let n = if path.len() <= old(buf)@.len() { path.len() } else { old(buf)@.len() };
                &&& r == Ok::<usize, i32>(n as usize)
                &&& final(buf)@ == path.take(n as int) + old(buf)@.skip(n as int)
            },
    {
        let ns_id = match self.handles.get(&handle_id) {
            Some(h) => h.ns_id,
            None => {
                return Err(EBADF);
            },
        };
        let mut path: Vec<u8> = Vec::new();
        path.push(110);
        path.push(118);
        path.push(109);
        path.push(101);
        path.push(58);
        push_decimal(&mut path, ns_id);
        path.push(47);
        assert(path@ =~= namespace_path(ns_id));
        let copy_len = if path.len() <= buf.len() { path.len() } else { buf.len() };
        let mut i: usize = 0;
        while i < copy_len
            invariant
                0 <= i <= copy_len,
                copy_len <= path@.len(),
                copy_len <= buf@.len(),
                buf@.len() == old(buf)@.len(),
                forall|j: int| 0 <= j < i ==> buf@[j] == path@[j],
                forall|j: int| i <= j < buf@.len() ==> buf@[j] == old(buf)@[j],
            decreases copy_len - i,
        {
            buf[i] = path[i];
            i = i + 1;
        }
        assert(buf@ =~= path@.take(copy_len as int) + old(buf)@.skip(copy_len as int));
        Ok(copy_len)
    }

    /// Moves a handle's offset (see `seek_target`, with `whence` cut to 32
    /// bits); the answer is the new offset.
    pub fn handle_lseek(&mut self, handle_id: u64, offset: i64, whence: usize) -> (r: Result<usize, i32>)
        requires
            scheme_wf(old(self)@),
        ensures
            scheme_wf(final(self)@),
            ({
                let v = old(self)@;
                if !v.handles.contains_key(handle_id) {
                    r == Err::<usize, i32>(EBADF) && final(self)@ == v
                } else {
                    let h = v.handles[handle_id];
                    match seek_target(whence as i32, offset, h.offset, h.ns_info.size) {
                        None => r == Err::<usize, i32>(EINVAL) && final(self)@ == v,
                        Some(o) => r == Ok::<usize, i32>(o as usize) && final(self)@ == (NvmeSchemeView {
                            handles: v.handles.insert(handle_id, NvmeHandle { offset: o, ..h }),
                            ..v
                        }),
                    }
                }
            }),
    {
        let (current, size) = match self.handles.get(&handle_id) {
            Some(h) => (h.offset, h.ns_info.size),
            None => {
                return Err(EBADF);
            },
        };
        let w = whence as i32;
        let new_offset: u64 = if w == SEEK_SET {
            offset as u64
        } else if w == SEEK_CUR {
            (current as i64).wrapping_add(offset) as u64
        } else if w == SEEK_END {
            (size as i64).wrapping_add(offset) as u64
        } else {
            return Err(EINVAL);
        };
        let ghost v = self@;
        let mut h = self.handles.remove(&handle_id).unwrap();
        h.offset = new_offset;
        self.handles.insert(handle_id, h);
        assert(self@.handles =~= v.handles.insert(handle_id, NvmeHandle { offset: new_offset, ..v.handles[handle_id] }));
        Ok(new_offset as usize)
    }

    /// Submits a flush of the handle's namespace on the handle's queue,
    /// recording `payload` for its completion (see `flush_outcome`); a full
    /// ring answers `EAGAIN`.
    pub fn handle_fsync(&mut self, handle_id: u64, payload: P) -> (r: Result<u16, i32>)
        requires
            scheme_wf(old(self)@),
        ensures
            scheme_wf(final(self)@),
            !old(self)@.handles.contains_key(handle_id) ==> r == Err::<u16, i32>(EBADF) && final(self)@ == old(self)@,
            old(self)@.handles.contains_key(handle_id) ==> {
                let v = old(self)@;
                let h = v.handles[handle_id];
                let qi = h.queue_id as int;
                let (id, after) = flush_outcome(v.queues[qi], h.ns_info.id);
                match id {
                    None => r == Err::<u16, i32>(EAGAIN)
                        && final(self)@ == (NvmeSchemeView { queues: v.queues.update(qi, after), ..v }),
                    Some(cid) => {
                        let fq = final(self)@.queues[qi];
                        &&& r == Ok::<u16, i32>(cid)
                        &&& fq.pending.contains_key(cid)
                        &&& fq.pending[cid].payload == payload
                        &&& !fq.pending[cid].is_write
                        &&& fq.pending[cid].bytes == 0
                        &&& fq == (QueuePairView { pending: after.pending.insert(cid, fq.pending[cid]), ..after })
                        &&& final(self)@ == (NvmeSchemeView { queues: v.queues.update(qi, fq), ..v })
                    },
                }
            },
    {
        let (queue_id, ns_id) = match self.handles.get(&handle_id) {
            Some(h) => (h.queue_id, h.ns_info.id),
            None => {
                return Err(EBADF);
            },
        };
        let ghost v = self@;
        assert(queue_wf(v.queues[queue_id as int]));
        let mut queue = self.queues.remove(queue_id);
        assert(queue@ == v.queues[queue_id as int]);
        let r = match queue.submit_flush(ns_id) {
            Some(cmd_id) => {
                queue.add_pending(cmd_id, PendingCommand { payload, submitted_at: now(), is_write: false, bytes: 0 });
                Ok(cmd_id)
            },
            None => Err(EAGAIN),
        };
        self.queues.insert(queue_id, queue);
        assert(self@.queues =~= v.queues.update(queue_id as int, self.queues@[queue_id as int]@));
        r
    }

    /// Closes a handle; the answer is 0.
    pub fn handle_close(&mut self, handle_id: u64) -> (r: Result<usize, i32>)
        requires
            scheme_wf(old(self)@),
        ensures
            scheme_wf(final(self)@),
            old(self)@.handles.contains_key(handle_id) ==> r == Ok::<usize, i32>(0) && final(self)@ == (NvmeSchemeView {
                handles: old(self)@.handles.remove(handle_id),
                ..old(self)@
            }),
            !old(self)@.handles.contains_key(handle_id) ==> r == Err::<usize, i32>(EBADF) && final(self)@ == old(self)@,
    {
        let ghost v = self@;
        match self.handles.remove(&handle_id) {
            Some(_) => Ok(0),
            None => {
                assert(self@.handles =~= v.handles);
                Err(EBADF)
            },
        }
    }

    /// Finishes a polled completion of queue `queue_id`: the command's
    /// record is taken out, and its payload comes back with the answer
    /// (see `completion_reply`); `None` for a command with no record.
    pub fn finish_completion(&mut self, queue_id: usize, completion: &CompletionInfo) -> (r: Option<(P, Result<usize, i32>)>)
        requires
            scheme_wf(old(self)@),
            queue_id < old(self)@.queues.len(),
        ensures
            scheme_wf(final(self)@),
            ({
                let v = old(self)@;
                let q = v.queues[queue_id as int];
                &&& final(self)@ == (NvmeSchemeView {
                    queues: v.queues.update(queue_id as int, QueuePairView { pending: q.pending.remove(completion.command_id), ..q }),
                    ..v
                })
                &&& q.pending.contains_key(completion.command_id) ==> r == Some((
                    q.pending[completion.command_id].payload,
                    completion_reply(completion.status, completion.bytes),
                ))
                &&& !q.pending.contains_key(completion.command_id) ==> r is None
            }),
    {
        let ghost v = self@;
        let mut queue = self.queues.remove(queue_id);
        let pending = queue.complete_command(completion.command_id);
        self.queues.insert(queue_id, queue);
        assert(self@.queues =~= v.queues.update(queue_id as int, self.queues@[queue_id as int]@));
        match pending {
            Some(p) => {
                let reply = if completion.status == 0 {
                    Ok(completion.bytes)
                } else {
                    Err(EIO)
                };
                Some((p.payload, reply))
            },
            None => None,
        }
    }

    /// The answer to a call the scheme does not implement (truncating
    /// included).
    pub fn unsupported(&self) -> (e: i32)
        ensures
            e == ENOSYS,
    {
        ENOSYS
    }
}

} // verus!
