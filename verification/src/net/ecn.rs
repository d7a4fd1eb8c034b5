//! ECN (Explicit Congestion Notification) codepoints in Ethernet frames.
use vstd::prelude::*;

verus! {

/// ECN codepoints.
#[derive(Debug, Clone, Copy, PartialEq, Eq, Structural)]
pub enum EcnFlag {
    /// Not-ECT (0b00).
    NotEct,
    /// ECT(1) (0b01).
    Ect1,
    /// ECT(0) (0b10).
    Ect0,
    /// Congestion Experienced (0b11).
    Ce,
}

/// The codepoint of the low two bits of `v`.
pub open spec fn ecn_of(v: u8) -> EcnFlag {
    let b = v & 3u8;
    if b == 0 {
        EcnFlag::NotEct
    } else if b == 1 {
        EcnFlag::Ect1
    } else if b == 2 {
        EcnFlag::Ect0
    } else {
        EcnFlag::Ce
    }
}

/// The two-bit value of a codepoint.
pub open spec fn ecn_bits(f: EcnFlag) -> u8 {
    match f {
        EcnFlag::NotEct => 0,
        EcnFlag::Ect1 => 1,
        EcnFlag::Ect0 => 2,
        EcnFlag::Ce => 3,
    }
}

impl From<u8> for EcnFlag {
    /// The codepoint of the low two bits of `val`.
    fn from(val: u8) -> (f: Self)
        ensures
            f == ecn_of(val),
    {
        let b = val & 0b11;
        if b == 0 {
            EcnFlag::NotEct
        } else if b == 1 {
            EcnFlag::Ect1
        } else if b == 2 {
            EcnFlag::Ect0
        } else {
            EcnFlag::Ce
        }
    }
}

impl vstd::std_specs::convert::FromSpecImpl<u8> for EcnFlag {
    open spec fn obeys_from_spec() -> bool {
        true
    }

    open spec fn from_spec(v: u8) -> EcnFlag {
        ecn_of(v)
    }
}

impl EcnFlag {
    /// The two-bit value of the codepoint.
    pub fn bits(&self) -> (b: u8)
        ensures
            b == ecn_bits(*self),
    {
        match self {
            EcnFlag::NotEct => 0,
            EcnFlag::Ect1 => 1,
            EcnFlag::Ect0 => 2,
            EcnFlag::Ce => 3,
        }
    }
}

/// A codepoint read back from its bits is the same codepoint.
pub proof fn lemma_ecn_bits_roundtrip(f: EcnFlag)
    ensures
        ecn_of(ecn_bits(f)) == f,
{
    let b = ecn_bits(f);
    assert(b <= 3 ==> b & 3u8 == b) by (bit_vector);
}

/// The ECN codepoint of an Ethernet frame: for IPv4 (ethertype 0x0800, at
/// least 34 bytes) the low bits of the TOS byte, for IPv6 (0x86DD, at least
/// 54 bytes) the low bits of the traffic class; none otherwise.
pub open spec fn frame_ecn(p: Seq<u8>) -> Option<EcnFlag> {
    if p.len() < 14 {
        None
    } else {
        let ethertype = (p[12] as u16) * 256 + p[13] as u16;
        if ethertype == 0x0800 {
            if p.len() < 34 {
                None
            } else {
                Some(ecn_of(p[15]))
            }
        } else if ethertype == 0x86DD {
            if p.len() < 54 {
                None
            } else {
                Some(ecn_of((p[15] >> 4u8) & 0x0Fu8))
            }
        } else {
            None
        }
    }
}

/// Extracts the ECN codepoint of an Ethernet frame.
pub fn extract_ecn(packet: &[u8]) -> (r: Option<EcnFlag>)
    ensures
        r == frame_ecn(packet@),
{
    if packet.len() < 14 {
        return None;
    }
    let ethertype: u16 = (packet[12] as u16) * 256 + packet[13] as u16;
    if ethertype == 0x0800 {
        if packet.len() < 14 + 20 {
            return None;
        }
        let dscp_ecn = packet[15];
        assert((dscp_ecn & 0x03u8) & 3u8 == dscp_ecn & 3u8) by (bit_vector);
        Some(EcnFlag::from(dscp_ecn & 0x03))
    } else if ethertype == 0x86DD {
        if packet.len() < 14 + 40 {
            return None;
        }
        let b0 = packet[14];
        let b1 = packet[15];
        let traffic_class: u8 = ((b0 & 0x0F) << 4) | ((b1 & 0xF0) >> 4);
        assert(traffic_class & 3u8 == ((b1 >> 4u8) & 0x0Fu8) & 3u8) by (bit_vector)
            requires
                traffic_class == ((b0 & 0x0Fu8) << 4u8) | ((b1 & 0xF0u8) >> 4u8),
        ;
        assert((traffic_class & 0x03u8) & 3u8 == traffic_class & 3u8) by (bit_vector);
        Some(EcnFlag::from(traffic_class & 0x03))
    } else {
        None
    }
}

} // verus!
