//! IPv6 addresses of a network adapter.
use vstd::prelude::*;

verus! {

/// The three IPv6 addresses of an adapter.
#[derive(Debug, Clone, Copy)]
pub struct Ipv6 {
    pub link_local: [u8; 16],
    pub global: [u8; 16],
    pub unique_local: [u8; 16],
}

/// The link-local address `fe80::/64` with the modified EUI-64 interface
/// identifier of `mac` (universal/local bit flipped, `ff:fe` in the middle).
pub open spec fn link_local_of(mac: Seq<u8>) -> Seq<u8> {
    seq![
        0xfeu8, 0x80u8, 0u8, 0u8, 0u8, 0u8, 0u8, 0u8,
        mac[0] ^ 0x02u8, mac[1], mac[2], 0xffu8, 0xfeu8, mac[3], mac[4], mac[5],
    ]
}

impl Ipv6 {
    /// Addresses of an adapter with MAC address `mac_address`.
    pub fn new(mac_address: [u8; 6], global: [u8; 16], unique_local: [u8; 16]) -> (r: Self)
        ensures
            r.link_local@ == link_local_of(mac_address@),
            r.global == global,
            r.unique_local == unique_local,
    {
        let mut link_local: [u8; 16] = [0u8; 16];
        link_local[0] = 0xfe;
        link_local[1] = 0x80;
        link_local[8] = mac_address[0] ^ 0x02;
        link_local[9] = mac_address[1];
        link_local[10] = mac_address[2];
        link_local[11] = 0xff;
        link_local[12] = 0xfe;
        link_local[13] = mac_address[3];
        link_local[14] = mac_address[4];
        link_local[15] = mac_address[5];
        assert(link_local@ =~= link_local_of(mac_address@));
        Ipv6 { link_local, global, unique_local }
    }
}

} // verus!
