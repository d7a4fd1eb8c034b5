//! Full-cone NAT mappings and the flow offload table.
use vstd::prelude::*;
use std::collections::BTreeMap;
use super::xdp::{FiveTuple, tuple_key};

verus! {

broadcast use {vstd::std_specs::btree::group_btree_axioms, vstd::laws_cmp::group_laws_cmp};

/// A NAT endpoint.
#[derive(Debug, Clone, Copy, PartialEq, Eq, PartialOrd, Ord, Structural)]
pub struct Endpoint {
    pub ip: u32,
    pub port: u16,
}

/// An endpoint as the key the tables use.
pub open spec fn ep_key(e: Endpoint) -> (u32, u16) {
    (e.ip, e.port)
}

/// The endpoint of a key.
pub open spec fn ep_of(k: (u32, u16)) -> Endpoint {
    Endpoint { ip: k.0, port: k.1 }
}

/// The internal endpoint mapped to `public` in `rev`, if any.
pub open spec fn translated(rev: Map<(u32, u16), (u32, u16)>, public: Endpoint) -> Option<Endpoint> {
    if rev.contains_key(ep_key(public)) {
        Some(ep_of(rev[ep_key(public)]))
    } else {
        None
    }
}

/// NAT and flow offload engine.
pub struct FlowOffloadNatEngine {
    pub total_natted_packets: u64,
    pub total_offloaded_packets: u64,
    forward_nat_table: BTreeMap<(u32, u16), (u32, u16)>,
    reverse_nat_table: BTreeMap<(u32, u16), (u32, u16)>,
    flow_offload_set: BTreeMap<(u32, u32, u16, u16, u8), u64>,
}

impl FlowOffloadNatEngine {
    /// Inbound packets translated.
    pub closed spec fn natted(&self) -> u64 {
        self.total_natted_packets
    }

    /// Packets matched to an offloaded flow.
    pub closed spec fn offloaded(&self) -> u64 {
        self.total_offloaded_packets
    }

    /// Internal endpoint to public endpoint.
    pub closed spec fn forward(&self) -> Map<(u32, u16), (u32, u16)> {
        self.forward_nat_table@
    }

    /// Public endpoint to internal endpoint.
    pub closed spec fn reverse(&self) -> Map<(u32, u16), (u32, u16)> {
        self.reverse_nat_table@
    }

    /// Offloaded flows to socket handles.
    pub closed spec fn flows(&self) -> Map<(u32, u32, u16, u16, u8), u64> {
        self.flow_offload_set@
    }

    /// An engine with empty tables and zero counters.
    pub fn new() -> (e: Self)
        ensures
            e.natted() == 0,
            e.offloaded() == 0,
            e.forward() == Map::<(u32, u16), (u32, u16)>::empty(),
            e.reverse() == Map::<(u32, u16), (u32, u16)>::empty(),
            e.flows() == Map::<(u32, u32, u16, u16, u8), u64>::empty(),
    {
        FlowOffloadNatEngine {
            total_natted_packets: 0,
            total_offloaded_packets: 0,
            forward_nat_table: BTreeMap::new(),
            reverse_nat_table: BTreeMap::new(),
            flow_offload_set: BTreeMap::new(),
        }
    }

    /// Maps `internal` to `public` and back.
    pub fn register_full_cone_mapping(&mut self, internal: Endpoint, public: Endpoint)
        ensures
            final(self).forward() == old(self).forward().insert(ep_key(internal), ep_key(public)),
            final(self).reverse() == old(self).reverse().insert(ep_key(public), ep_key(internal)),
            final(self).flows() == old(self).flows(),
            final(self).natted() == old(self).natted(),
            final(self).offloaded() == old(self).offloaded(),
    {
        self.forward_nat_table.insert((internal.ip, internal.port), (public.ip, public.port));
        self.reverse_nat_table.insert((public.ip, public.port), (internal.ip, internal.port));
    }

    /// The internal endpoint behind `public`; a hit is counted.
    pub fn translate_inbound_public(&mut self, public: Endpoint) -> (r: Option<Endpoint>)
        ensures
            r == translated(old(self).reverse(), public),
            r is Some ==> final(self).natted() == old(self).natted().wrapping_add(1),
            r is None ==> final(self).natted() == old(self).natted(),
            final(self).offloaded() == old(self).offloaded(),
            final(self).forward() == old(self).forward(),
            final(self).reverse() == old(self).reverse(),
            final(self).flows() == old(self).flows(),
    {
        let key = (public.ip, public.port);
        match self.reverse_nat_table.get(&key) {
            Some(v) => {
                let internal = Endpoint { ip: v.0, port: v.1 };
                self.total_natted_packets = self.total_natted_packets.wrapping_add(1);
                Some(internal)
            },
            None => None,
        }
    }

    /// Records that `tuple` is served by socket `socket_handle`.
    pub fn register_flow_offload(&mut self, tuple: FiveTuple, socket_handle: u64)
        ensures
            final(self).flows() == old(self).flows().insert(tuple_key(tuple), socket_handle),
            final(self).forward() == old(self).forward(),
            final(self).reverse() == old(self).reverse(),
            final(self).natted() == old(self).natted(),
            final(self).offloaded() == old(self).offloaded(),
    {
        let key = (tuple.src_ip, tuple.dst_ip, tuple.src_port, tuple.dst_port, tuple.protocol);
        self.flow_offload_set.insert(key, socket_handle);
    }

    /// The socket handle of an offloaded flow; a hit is counted.
    pub fn check_flow_offload(&mut self, tuple: &FiveTuple) -> (r: Option<u64>)
        ensures
            old(self).flows().contains_key(tuple_key(*tuple)) ==> r == Some(
                old(self).flows()[tuple_key(*tuple)],
            ) && final(self).offloaded() == old(self).offloaded().wrapping_add(1),
            !old(self).flows().contains_key(tuple_key(*tuple)) ==> r is None
                && final(self).offloaded() == old(self).offloaded(),
            final(self).natted() == old(self).natted(),
            final(self).forward() == old(self).forward(),
            final(self).reverse() == old(self).reverse(),
            final(self).flows() == old(self).flows(),
    {
        let key = (tuple.src_ip, tuple.dst_ip, tuple.src_port, tuple.dst_port, tuple.protocol);
        match self.flow_offload_set.get(&key) {
            Some(h) => {
                let handle = *h;
                self.total_offloaded_packets = self.total_offloaded_packets.wrapping_add(1);
                Some(handle)
            },
            None => None,
        }
    }
}

/// After `internal` is mapped to `public`, an inbound packet to `public`
/// translates to `internal`.
pub proof fn lemma_mapping_translates_back(
    rev: Map<(u32, u16), (u32, u16)>,
    internal: Endpoint,
    public: Endpoint,
)
    ensures
        translated(rev.insert(ep_key(public), ep_key(internal)), public) == Some(internal),
{
}

} // verus!
