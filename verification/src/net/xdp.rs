//! Driver-level fast packet path: drop rules, redirect rules, pass-through.
use vstd::prelude::*;
use std::collections::BTreeSet;

verus! {

broadcast use {vstd::std_specs::btree::group_btree_axioms, vstd::laws_cmp::group_laws_cmp};

/// Packet action decision.
#[derive(Debug, Clone, Copy, PartialEq, Eq, Structural)]
pub enum XdpAction {
    /// Drop the packet at the driver ring.
    Drop,
    /// Hand the packet to the socket buffer at this address.
    Redirect(u64),
    /// Standard network stack processing.
    Pass,
}

/// 5-tuple key for fast-path lookup.
#[derive(Debug, Clone, Copy, PartialEq, Eq, PartialOrd, Ord, Structural)]
pub struct FiveTuple {
    pub src_ip: u32,
    pub dst_ip: u32,
    pub src_port: u16,
    pub dst_port: u16,
    pub protocol: u8,
}

/// The 5-tuple as plain integers, the key the rule tables are ordered by.
pub open spec fn tuple_key(t: FiveTuple) -> (u32, u32, u16, u16, u8) {
    (t.src_ip, t.dst_ip, t.src_port, t.dst_port, t.protocol)
}

fn key_of(t: FiveTuple) -> (k: (u32, u32, u16, u16, u8))
    ensures
        k == tuple_key(t),
{
    (t.src_ip, t.dst_ip, t.src_port, t.dst_port, t.protocol)
}

/// Whether `addr` is the least address redirected to for `t` in `rules`.
pub open spec fn least_redirect(rules: Seq<(FiveTuple, u64)>, t: FiveTuple, addr: u64) -> bool {
    &&& exists|i: int| 0 <= i < rules.len() && #[trigger] rules[i] == (t, addr)
    &&& forall|i: int| 0 <= i < rules.len() && #[trigger] rules[i].0 == t ==> addr <= rules[i].1
}

/// Whether some redirect rule is for `t`.
pub open spec fn has_redirect(rules: Seq<(FiveTuple, u64)>, t: FiveTuple) -> bool {
    exists|i: int| 0 <= i < rules.len() && #[trigger] rules[i].0 == t
}

/// Fast path engine.
pub struct XdpFastPathEngine {
    pub is_enabled: bool,
    pub dropped_packets: u64,
    pub redirected_packets: u64,
    pub passed_packets: u64,
    drop_blacklist: BTreeSet<(u32, u32, u16, u16, u8)>,
    fast_redirect_table: Vec<(FiveTuple, u64)>,
}

impl XdpFastPathEngine {
    /// Whether the fast path is active.
    pub closed spec fn enabled(&self) -> bool {
        self.is_enabled
    }

    /// Packets dropped.
    pub closed spec fn dropped(&self) -> u64 {
        self.dropped_packets
    }

    /// Packets redirected.
    pub closed spec fn redirected(&self) -> u64 {
        self.redirected_packets
    }

    /// Packets passed to the stack.
    pub closed spec fn passed(&self) -> u64 {
        self.passed_packets
    }

    /// The blacklisted tuples, by key.
    pub closed spec fn blacklist(&self) -> Set<(u32, u32, u16, u16, u8)> {
        self.drop_blacklist@
    }

    /// The redirect rules (tuple, socket buffer address).
    pub closed spec fn redirects(&self) -> Seq<(FiveTuple, u64)> {
        self.fast_redirect_table@
    }

    /// The decision for a packet, as `process_rx_ring_packet` makes it.
    pub open spec fn decision(&self, t: FiveTuple, is_syn: bool, payload_len: usize) -> XdpAction {
        if !self.enabled() {
            XdpAction::Pass
        } else if self.blacklist().contains(tuple_key(t)) || (is_syn && payload_len == 0) {
            XdpAction::Drop
        } else if has_redirect(self.redirects(), t) {
            XdpAction::Redirect(choose|a: u64| least_redirect(self.redirects(), t, a))
        } else {
            XdpAction::Pass
        }
    }

    /// An enabled engine with no rules and zero counters.
    pub fn new() -> (e: Self)
        ensures
            e.enabled(),
            e.dropped() == 0,
            e.redirected() == 0,
            e.passed() == 0,
            e.blacklist() == Set::<(u32, u32, u16, u16, u8)>::empty(),
            e.redirects() == Seq::<(FiveTuple, u64)>::empty(),
    {
        XdpFastPathEngine {
            is_enabled: true,
            dropped_packets: 0,
            redirected_packets: 0,
            passed_packets: 0,
            drop_blacklist: BTreeSet::new(),
            fast_redirect_table: Vec::new(),
        }
    }

    /// The least address redirected to for `t`, if any rule is for `t`.
    fn lookup_redirect(&self, t: FiveTuple) -> (r: Option<u64>)
        ensures
            r is None <==> !has_redirect(self.redirects(), t),
            r matches Some(a) ==> least_redirect(self.redirects(), t, a),
    {
        let rules = &self.fast_redirect_table;
        let mut best: Option<u64> = None;
        let mut i: usize = 0;
        while i < rules.len()
            invariant
                0 <= i <= rules@.len(),
                rules@ == self.fast_redirect_table@,
                best is None <==> !(exists|j: int| 0 <= j < i && #[trigger] rules@[j].0 == t),
                best matches Some(a) ==> (exists|j: int| 0 <= j < i && #[trigger] rules@[j] == (t, a)),
                best matches Some(a) ==> (forall|j: int|
                    0 <= j < i && #[trigger] rules@[j].0 == t ==> a <= rules@[j].1),
            decreases rules@.len() - i,
        {
            let (rt, addr) = rules[i];
            if rt == t {
                match best {
                    Some(b) => {
                        if addr < b {
                            best = Some(addr);
                        }
                    },
                    None => {
                        best = Some(addr);
                    },
                }
                assert(rules@[i as int] == (t, addr));
            }
            i = i + 1;
        }
        best
    }

    /// Decides what happens to a received packet and counts the decision:
    /// everything passes while disabled; blacklisted tuples and empty SYN
    /// packets drop; a tuple with redirect rules goes to the least of their
    /// addresses; the rest pass.
    pub fn process_rx_ring_packet(&mut self, tuple: FiveTuple, is_syn_flag: bool, payload_len: usize) -> (a: XdpAction)
        ensures
            a == old(self).decision(tuple, is_syn_flag, payload_len),
            final(self).blacklist() == old(self).blacklist(),
            final(self).redirects() == old(self).redirects(),
            final(self).enabled() == old(self).enabled(),
            a is Drop ==> final(self).dropped() == old(self).dropped().wrapping_add(1),
            !(a is Drop) ==> final(self).dropped() == old(self).dropped(),
            a is Redirect ==> final(self).redirected() == old(self).redirected().wrapping_add(1),
            !(a is Redirect) ==> final(self).redirected() == old(self).redirected(),
            a is Pass ==> final(self).passed() == old(self).passed().wrapping_add(1),
            !(a is Pass) ==> final(self).passed() == old(self).passed(),
    {
        if !self.is_enabled {
            self.passed_packets = self.passed_packets.wrapping_add(1);
            return XdpAction::Pass;
        }
        let key = key_of(tuple);
        if self.drop_blacklist.contains(&key) || (is_syn_flag && payload_len == 0) {
            self.dropped_packets = self.dropped_packets.wrapping_add(1);
            return XdpAction::Drop;
        }
        match self.lookup_redirect(tuple) {
            Some(addr) => {
                proof {
                    let c = choose|a: u64| least_redirect(self.redirects(), tuple, a);
                    assert(least_redirect(self.redirects(), tuple, c));
                    let i = choose|i: int| 0 <= i < self.redirects().len() && #[trigger] self.redirects()[i] == (tuple, c);
                    let k = choose|k: int| 0 <= k < self.redirects().len() && #[trigger] self.redirects()[k] == (tuple, addr);
                    assert(self.redirects()[i].0 == tuple);
                    assert(self.redirects()[k].0 == tuple);
                }
                self.redirected_packets = self.redirected_packets.wrapping_add(1);
                XdpAction::Redirect(addr)
            },
            None => {
                self.passed_packets = self.passed_packets.wrapping_add(1);
                XdpAction::Pass
            },
        }
    }

    /// Adds `tuple` to the drop blacklist.
    pub fn add_drop_rule(&mut self, tuple: FiveTuple)
        ensures
            final(self).blacklist() == old(self).blacklist().insert(tuple_key(tuple)),
            final(self).redirects() == old(self).redirects(),
            final(self).enabled() == old(self).enabled(),
            final(self).dropped() == old(self).dropped(),
            final(self).redirected() == old(self).redirected(),
            final(self).passed() == old(self).passed(),
    {
        let key = key_of(tuple);
        self.drop_blacklist.insert(key);
    }

    /// Adds the redirect rule (`tuple`, `socket_addr`) unless it is present.
    pub fn add_redirect_rule(&mut self, tuple: FiveTuple, socket_addr: u64)
        ensures
            (exists|i: int| 0 <= i < old(self).redirects().len() && #[trigger] old(self).redirects()[i] == (tuple, socket_addr))
                ==> final(self).redirects() == old(self).redirects(),
            !(exists|i: int| 0 <= i < old(self).redirects().len() && #[trigger] old(self).redirects()[i] == (tuple, socket_addr))
                ==> final(self).redirects() == old(self).redirects().push((tuple, socket_addr)),
            final(self).blacklist() == old(self).blacklist(),
            final(self).enabled() == old(self).enabled(),
            final(self).dropped() == old(self).dropped(),
            final(self).redirected() == old(self).redirected(),
            final(self).passed() == old(self).passed(),
    {
        let mut i: usize = 0;
        while i < self.fast_redirect_table.len()
            invariant
                0 <= i <= self.fast_redirect_table@.len(),
                forall|j: int| 0 <= j < i ==> #[trigger] self.fast_redirect_table@[j] != (tuple, socket_addr),
            decreases self.fast_redirect_table@.len() - i,
        {
            let (t, a) = self.fast_redirect_table[i];
            if t == tuple && a == socket_addr {
                return;
            }
            i = i + 1;
        }
        self.fast_redirect_table.push((tuple, socket_addr));
    }
}

/// A blacklisted tuple is dropped while the engine is enabled, whatever
/// else holds.
pub proof fn lemma_blacklisted_dropped(e: XdpFastPathEngine, t: FiveTuple, is_syn: bool, len: usize)
    requires
        e.enabled(),
        e.blacklist().contains(tuple_key(t)),
    ensures
        e.decision(t, is_syn, len) == XdpAction::Drop,
{
}

} // verus!
