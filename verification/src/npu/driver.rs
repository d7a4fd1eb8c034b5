//! NPU devices and the driver's device table. A device's capabilities are
//! whatever record the caller describes it with.
use vstd::prelude::*;
use std::collections::BTreeMap;
use super::command::{Command, CommandQueue, CommandStatus, insert_pos};
use super::device::{NpuConfig, NpuMemoryPool, NpuStats, Allocation};
use super::memory::{BufferUsage, NpuBuffer};
use vstd::std_specs::iter::IteratorSpec;
use vstd::std_specs::cmp::OrdSpec;

verus! {

broadcast use {vstd::std_specs::btree::group_btree_axioms, vstd::laws_cmp::group_laws_cmp};

/// An NPU device: its command queue, its memory pool and its counters.
pub struct NpuDevice<C> {
    pub id: u32,
    pub capabilities: C,
    queue: CommandQueue,
    memory_pool: NpuMemoryPool,
    stats: NpuStats,
}

/// The pool size of a configuration in bytes.
pub open spec fn pool_bytes(config: NpuConfig) -> u64 {
    (config.memory_pool_mb * 1024 * 1024) as u64
}

impl<C> NpuDevice<C> {
    /// The device id.
    pub closed spec fn id_spec(&self) -> u32 {
        self.id
    }

    /// The device's capabilities.
    pub closed spec fn capabilities_spec(&self) -> C {
        self.capabilities
    }

    /// The command queue.
    pub closed spec fn queue_spec(&self) -> CommandQueue {
        self.queue
    }

    /// The memory pool.
    pub closed spec fn pool_spec(&self) -> NpuMemoryPool {
        self.memory_pool
    }

    /// The number of commands submitted (wrapping).
    pub closed spec fn submitted_spec(&self) -> u64 {
        self.stats.commands_submitted
    }

    /// The device's invariant: its queue is in priority order.
    pub open spec fn wf(&self) -> bool {
        self.queue_spec().wf()
    }

    /// A device with an empty queue of `config.queue_depth` entries and an
    /// empty pool of `config.memory_pool_mb` MiB.
    pub fn new(id: u32, capabilities: C, config: NpuConfig) -> (d: Self)
        ensures
            d.wf(),
            d.id_spec() == id,
            d.capabilities_spec() == capabilities,
            d.queue_spec().pending_seq().len() == 0,
            d.queue_spec().in_flight_seq().len() == 0,
            d.queue_spec().completed_seq().len() == 0,
            d.queue_spec().next_id_spec() == 1,
            d.pool_spec().total() == pool_bytes(config),
            d.pool_spec().used() == 0,
            d.pool_spec().next_handle_spec() == 1,
            d.pool_spec().allocs() == Map::<u32, Allocation>::empty(),
            d.submitted_spec() == 0,
    {
        let bytes = config.memory_pool_mb as u64 * 1024 * 1024;
        NpuDevice {
            id,
            capabilities,
            queue: CommandQueue::new(config.queue_depth as usize),
            memory_pool: NpuMemoryPool::new(bytes),
            stats: NpuStats::new(),
        }
    }

    /// Queues a command in priority order and counts it; the answer is its
    /// id.
    pub fn submit(&mut self, cmd: Command) -> (id: u64)
        requires
            old(self).wf(),
        ensures
            final(self).wf(),
            id == old(self).queue_spec().next_id_spec(),
            final(self).queue_spec().next_id_spec() == id.wrapping_add(1),
            final(self).queue_spec().pending_seq() == old(self).queue_spec().pending_seq().insert(
                insert_pos(old(self).queue_spec().pending_seq(), cmd.priority),
                Command { id, status: CommandStatus::Pending, ..cmd },
            ),
            final(self).queue_spec().in_flight_seq() == old(self).queue_spec().in_flight_seq(),
            final(self).queue_spec().completed_seq() == old(self).queue_spec().completed_seq(),
            final(self).submitted_spec() == old(self).submitted_spec().wrapping_add(1),
            final(self).pool_spec() == old(self).pool_spec(),
            final(self).id_spec() == old(self).id_spec(),
            final(self).capabilities_spec() == old(self).capabilities_spec(),
    {
        let id = self.queue.submit(cmd);
        self.stats.commands_submitted = self.stats.commands_submitted.wrapping_add(1);
        id
    }

    /// Where command `cmd_id` stands (see `CommandQueue::wait`).
    pub fn wait(&self, cmd_id: u64) -> (r: Option<CommandStatus>)
        ensures
            match self.queue_spec().status_spec(cmd_id) {
                Some(s) => if super::command::is_final(s) {
                    r == Some(s)
                } else {
                    r is None
                },
                None => r == Some(CommandStatus::Failed(1)),
            },
    {
        self.queue.wait(cmd_id)
    }

    /// Allocates a buffer from the device pool (see
    /// `NpuMemoryPool::allocate`).
    pub fn alloc_buffer(&mut self, size: usize, usage: BufferUsage) -> (r: Option<NpuBuffer>)
        requires
            old(self).pool_spec().used() + size <= u64::MAX,
        ensures
            final(self).queue_spec() == old(self).queue_spec(),
            final(self).submitted_spec() == old(self).submitted_spec(),
            final(self).pool_spec().total() == old(self).pool_spec().total(),
            old(self).pool_spec().used() + size > old(self).pool_spec().total() ==> r is None
                && final(self).pool_spec().used() == old(self).pool_spec().used()
                && final(self).pool_spec().allocs() == old(self).pool_spec().allocs(),
            old(self).pool_spec().used() + size <= old(self).pool_spec().total() ==> {
                let h = old(self).pool_spec().next_handle_spec();
                &&& r == Some(NpuBuffer { handle: h, size, usage, ptr: 0 })
                &&& final(self).pool_spec().used() == old(self).pool_spec().used() + size
                &&& final(self).pool_spec().allocs() == old(self).pool_spec().allocs().insert(
                    h,
                    Allocation { handle: h, size, usage },
                )
            },
    {
        self.memory_pool.allocate(size, usage)
    }

    /// Frees a buffer of the device pool (see `NpuMemoryPool::free`).
    pub fn free_buffer(&mut self, buffer: NpuBuffer)
        ensures
            final(self).queue_spec() == old(self).queue_spec(),
            final(self).submitted_spec() == old(self).submitted_spec(),
            final(self).pool_spec().allocs() == old(self).pool_spec().allocs().remove(buffer.handle),
            old(self).pool_spec().allocs().contains_key(buffer.handle) ==> final(self).pool_spec().used()
                == old(self).pool_spec().used().wrapping_sub(buffer.size as u64),
            !old(self).pool_spec().allocs().contains_key(buffer.handle) ==> final(self).pool_spec().used()
                == old(self).pool_spec().used(),
    {
        self.memory_pool.free(buffer)
    }

    /// The device counters.
    pub fn stats(&self) -> (s: &NpuStats)
        ensures
            s.commands_submitted == self.submitted_spec(),
    {
        &self.stats
    }
}

/// The NPU driver: its devices by id.
pub struct NpuDriver<C> {
    devices: BTreeMap<u32, NpuDevice<C>>,
    next_device_id: u32,
}

impl<C> NpuDriver<C> {
    /// The devices by id.
    pub closed spec fn devices_spec(&self) -> Map<u32, NpuDevice<C>> {
        self.devices@
    }

    /// The id the next device gets.
    pub closed spec fn next_id_spec(&self) -> u32 {
        self.next_device_id
    }

    /// A driver with no devices; ids start at 0.
    pub fn new() -> (d: Self)
        ensures
            d.devices_spec() == Map::<u32, NpuDevice<C>>::empty(),
            d.next_id_spec() == 0,
    {
        NpuDriver { devices: BTreeMap::new(), next_device_id: 0 }
    }

    /// Registers a new device under the next id (ids wrap); the answer is
    /// its id.
    pub fn register_device(&mut self, capabilities: C, config: NpuConfig) -> (id: u32)
        ensures
            id == old(self).next_id_spec(),
            final(self).next_id_spec() == id.wrapping_add(1),
            final(self).devices_spec().dom() == old(self).devices_spec().dom().insert(id),
            forall|k: u32| k != id && #[trigger] old(self).devices_spec().contains_key(k)
                ==> final(self).devices_spec()[k] == old(self).devices_spec()[k],
            ({
                let d = final(self).devices_spec()[id];
                &&& d.wf()
                &&& d.id_spec() == id
                &&& d.capabilities_spec() == capabilities
                &&& d.queue_spec().pending_seq().len() == 0
                &&& d.queue_spec().next_id_spec() == 1
                &&& d.pool_spec().total() == pool_bytes(config)
                &&& d.pool_spec().used() == 0
                &&& d.submitted_spec() == 0
            }),
    {
        let id = self.next_device_id;
        self.next_device_id = self.next_device_id.wrapping_add(1);
        let device = NpuDevice::new(id, capabilities, config);
        self.devices.insert(id, device);
        id
    }

    /// The device with id `id`, if any.
    pub fn get_device(&self, id: u32) -> (r: Option<&NpuDevice<C>>)
        ensures
            self.devices_spec().contains_key(id) ==> r == Some(&self.devices_spec()[id]),
            !self.devices_spec().contains_key(id) ==> r is None,
    {
        self.devices.get(&id)
    }

    /// The ids of all devices, ascending.
    pub fn list_devices(&self) -> (v: Vec<u32>)
        ensures
            v@.to_set() == self.devices_spec().dom(),
            forall|i: int, j: int| 0 <= i < j < v@.len() ==> v@[i] < v@[j],
    {
        let mut v: Vec<u32> = Vec::new();
        let ghost ks = vstd::std_specs::btree::spec_keys_iter(&self.devices).remaining().unref();
        for k in it: self.devices.keys()
            invariant
                ks == it.seq().unref(),
                v@ == ks.take(it.index()),
        {
            v.push(*k);
            assert(v@ =~= ks.take(it.index() + 1));
        }
        assert(v@ =~= ks);
        proof {
            let r = vstd::std_specs::btree::spec_keys_iter(&self.devices).remaining();
            assert(vstd::std_specs::btree::increasing_seq(r));
            assert(vstd::laws_cmp::obeys_cmp::<u32>());
            assert(vstd::laws_cmp::obeys_cmp::<&u32>());
            vstd::std_specs::btree::axiom_increasing_seq_meaning(r);
            assert forall|i: int, j: int| 0 <= i < j < v@.len() implies v@[i] < v@[j] by {
                assert(OrdSpec::cmp_spec(&r[i], &r[j]) is Less);
            }
        }
        v
    }
}

} // verus!
