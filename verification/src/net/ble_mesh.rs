//! BLE mesh relay decisions.
use vstd::prelude::*;

verus! {

/// BLE mesh packet header.
#[derive(Debug, Clone, Copy)]
pub struct BleMeshPacketHeader {
    pub src_unicast_addr: u16,
    pub dst_unicast_addr: u16,
    pub sequence_number: u32,
    pub ttl: u8,
    pub opcode: u8,
}

/// Whether a packet is relayed: it is not addressed here, it has TTL left,
/// and its sequence number is newer than the last one seen.
pub open spec fn should_relay(h: BleMeshPacketHeader, local_addr: u16, last_seen: u64) -> bool {
    h.dst_unicast_addr != local_addr && h.ttl > 1 && h.sequence_number as u64 > last_seen
}

/// BLE mesh routing engine counters.
pub struct BleMeshRoutingEngine {
    pub total_packets_routed: u64,
    pub total_relayed: u64,
    pub last_seen_sequence: u64,
}

impl BleMeshRoutingEngine {
    /// An engine with all counters at zero.
    pub fn new() -> (e: Self)
        ensures
            e.total_packets_routed == 0,
            e.total_relayed == 0,
            e.last_seen_sequence == 0,
    {
        BleMeshRoutingEngine { total_packets_routed: 0, total_relayed: 0, last_seen_sequence: 0 }
    }

    /// Counts the packet and decides whether to relay it; a relayed
    /// packet's sequence number becomes the last one seen.
    pub fn process_mesh_packet(&mut self, header: BleMeshPacketHeader, local_addr: u16) -> (relay: bool)
        ensures
            relay == should_relay(header, local_addr, old(self).last_seen_sequence),
            final(self).total_packets_routed == old(self).total_packets_routed.wrapping_add(1),
            relay ==> final(self).last_seen_sequence == header.sequence_number as u64
                && final(self).total_relayed == old(self).total_relayed.wrapping_add(1),
            !relay ==> final(self).last_seen_sequence == old(self).last_seen_sequence
                && final(self).total_relayed == old(self).total_relayed,
    {
        self.total_packets_routed = self.total_packets_routed.wrapping_add(1);
        if header.dst_unicast_addr == local_addr {
            return false;
        }
        if header.ttl > 1 {
            let seq = header.sequence_number as u64;
            if seq > self.last_seen_sequence {
                self.last_seen_sequence = seq;
                self.total_relayed = self.total_relayed.wrapping_add(1);
                return true;
            }
        }
        false
    }
}

/// A packet is relayed at most once: right after relaying it, the same
/// packet is not relayed again.
pub proof fn lemma_no_double_relay(h: BleMeshPacketHeader, local_addr: u16, last_seen: u64)
    requires
        should_relay(h, local_addr, last_seen),
    ensures
        !should_relay(h, local_addr, h.sequence_number as u64),
{
}

} // verus!
