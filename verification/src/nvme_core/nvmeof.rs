//! NVMe-oF target: RDMA requests mapped onto the local submission ring.
use vstd::prelude::*;
use super::ring::submission_capacity;
use super::runqueue::{NvmeBlockDescriptor, NvmeOpcode, PerCoreNvmeQueue};

verus! {

/// RDMA fabric command packet.
#[derive(Debug, Clone, Copy, PartialEq, Eq, Structural)]
pub struct RdmaFabricCommand {
    pub remote_rkey: u32,
    pub remote_vaddr: u64,
    pub local_lba_start: u64,
    pub length_bytes: u32,
    pub is_write: bool,
    pub command_id: u16,
}

/// The block descriptor an RDMA command maps to: write or read, the length
/// rounded up to 512-byte sectors, the remote buffer as the DMA address.
pub open spec fn rdma_descriptor(cmd: RdmaFabricCommand) -> NvmeBlockDescriptor {
    NvmeBlockDescriptor {
        opcode: if cmd.is_write { NvmeOpcode::Write } else { NvmeOpcode::Read },
        lba_start: cmd.local_lba_start,
        sector_count: ((cmd.length_bytes + 511) / 512) as u32,
        dma_buffer_phys: cmd.remote_vaddr,
        command_id: cmd.command_id,
    }
}

/// NVMe-oF target controller.
pub struct NvmeOfTargetDaemon {
    pub is_active: bool,
    pub total_rdma_reads: u64,
    pub total_rdma_writes: u64,
    pub local_queue: PerCoreNvmeQueue,
}

impl NvmeOfTargetDaemon {
    /// An active target over `local_queue` with zero counters.
    pub fn new(local_queue: PerCoreNvmeQueue) -> (d: Self)
        ensures
            d.is_active,
            d.total_rdma_reads == 0,
            d.total_rdma_writes == 0,
            d.local_queue == local_queue,
    {
        NvmeOfTargetDaemon { is_active: true, total_rdma_reads: 0, total_rdma_writes: 0, local_queue }
    }

    /// Counts the request as a read or write and submits its block
    /// descriptor to the local queue; a full queue hands the descriptor back.
    pub fn handle_rdma_request(&mut self, cmd: RdmaFabricCommand) -> (r: Result<(), NvmeBlockDescriptor>)
        requires
            cmd.length_bytes + 511 <= u32::MAX,
        ensures
            cmd.is_write ==> final(self).total_rdma_writes == old(self).total_rdma_writes.wrapping_add(1)
                && final(self).total_rdma_reads == old(self).total_rdma_reads,
            !cmd.is_write ==> final(self).total_rdma_reads == old(self).total_rdma_reads.wrapping_add(1)
                && final(self).total_rdma_writes == old(self).total_rdma_writes,
            final(self).is_active == old(self).is_active,
            old(self).local_queue.pending().len() < submission_capacity(old(self).local_queue.submission_ring)
                ==> r is Ok && final(self).local_queue.pending() == old(self).local_queue.pending().push(
                rdma_descriptor(cmd),
            ),
            old(self).local_queue.pending().len() >= submission_capacity(old(self).local_queue.submission_ring)
                ==> (r matches Err(d) && d == rdma_descriptor(cmd)) && final(self).local_queue.pending()
                == old(self).local_queue.pending(),
    {
        let opcode = if cmd.is_write {
            self.total_rdma_writes = self.total_rdma_writes.wrapping_add(1);
            NvmeOpcode::Write
        } else {
            self.total_rdma_reads = self.total_rdma_reads.wrapping_add(1);
            NvmeOpcode::Read
        };
        let sector_count = (cmd.length_bytes + 511) / 512;
        let block_desc = NvmeBlockDescriptor {
            opcode,
            lba_start: cmd.local_lba_start,
            sector_count,
            dma_buffer_phys: cmd.remote_vaddr,
            command_id: cmd.command_id,
        };
        self.local_queue.submit(block_desc)
    }
}

} // verus!
