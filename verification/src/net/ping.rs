//! Echo (ping) packets of IPv6 control messages and the Internet checksum
//! (RFC 1071) over them.
use vstd::prelude::*;

verus! {

/// Message type of an IPv6 echo request.
pub const ECHO_REQUEST_V6: u8 = 128;

/// Message type of an IPv6 echo reply.
pub const ECHO_REPLY_V6: u8 = 129;

/// IPv6 next-header number of the control-message protocol.
pub const NEXT_HEADER_CONTROL_V6: u8 = 58;

/// Largest echo data size whose checksum sum provably fits in 32 bits.
pub const MAX_ECHO_DATA: usize = 131_028;

/// The big-endian 16-bit words of `s` added up; an odd last byte counts as
/// the high byte of a word whose low byte is zero.
pub open spec fn word_sum(s: Seq<u8>) -> nat
    decreases s.len(),
{
    if s.len() == 0 {
        0
    } else if s.len() == 1 {
        (s[0] as nat) * 256
    } else {
        (s[0] as nat) * 256 + (s[1] as nat) + word_sum(s.skip(2))
    }
}

/// End-around-carry folding of a sum into 16 bits.
pub open spec fn fold16(x: nat) -> nat
    decreases x,
{
    if x < 65536 {
        x
    } else {
        proof {
            assert(x / 65536 + x % 65536 < x) by (nonlinear_arith)
                requires
                    x >= 65536,
            {
                assert(x == 65536 * (x / 65536) + x % 65536);
                assert(x / 65536 >= 1);
            }
        }
        fold16(x / 65536 + x % 65536)
    }
}

/// The ones'-complement checksum of a word sum.
pub open spec fn complement_of(sum: nat) -> u16 {
    (65535 - fold16(sum)) as u16
}

/// The word sum of the IPv6 pseudo-header (source, destination, the
/// packet's 32-bit length in two halves, next header 58) and the packet.
pub open spec fn pseudo_header_sum(src: Seq<u8>, dst: Seq<u8>, packet: Seq<u8>) -> nat {
    word_sum(src) + word_sum(dst) + packet.len() / 65536 + packet.len() % 65536 + 58
        + word_sum(packet)
}

proof fn lemma_fold16_small(x: nat)
    requires
        x < 65536,
    ensures
        fold16(x) == x,
{
}

proof fn lemma_word_sum_step(s: Seq<u8>, i: int)
    requires
        0 <= i < s.len(),
    ensures
        i + 1 < s.len() ==> word_sum(s.skip(i)) == (s[i] as nat) * 256 + (s[i + 1] as nat)
            + word_sum(s.skip(i + 2)),
        i + 1 == s.len() ==> word_sum(s.skip(i)) == (s[i] as nat) * 256,
{
    let t = s.skip(i);
    if i + 1 < s.len() {
        assert(t.skip(2) =~= s.skip(i + 2));
    }
}

/// A bound on the word sum: at most one full word per started pair.
proof fn lemma_word_sum_bound(s: Seq<u8>)
    ensures
        word_sum(s) <= 65535 * ((s.len() + 1) / 2),
    decreases s.len(),
{
    if s.len() >= 2 {
        lemma_word_sum_bound(s.skip(2));
        assert((s.len() + 1) / 2 == (s.skip(2).len() + 1) / 2 + 1);
    }
}

/// Folds a 32-bit sum with end-around carry and complements it.
fn fold_complement(total: u32) -> (r: u16)
    ensures
        r == complement_of(total as nat),
{
    let mut sum: u32 = total;
    while sum >> 16u32 != 0
        invariant
            fold16(sum as nat) == fold16(total as nat),
        decreases sum,
    {
        let low: u32 = sum & 0xFFFF;
        let high: u32 = sum >> 16u32;
        assert(low == sum % 65536 && high == sum / 65536) by (bit_vector)
            requires
                low == sum & 0xFFFF,
                high == sum >> 16u32,
        ;
        assert(sum >= 65536) by (bit_vector)
            requires
                sum >> 16u32 != 0,
        ;
        assert(fold16(sum as nat) == fold16((high + low) as nat));
        sum = low + high;
    }
    assert(sum < 65536) by (bit_vector)
        requires
            sum >> 16u32 == 0,
    ;
    proof {
        lemma_fold16_small(sum as nat);
    }
    let inv: u32 = !sum;
    assert((inv as u16) == 65535 - sum) by (bit_vector)
        requires
            inv == !sum,
            sum < 65536,
    ;
    inv as u16
}

/// The Internet checksum of `data`, read as big-endian 16-bit words: their
/// sum, folded with end-around carry, complemented. `data` holds whole words.
pub fn checksum(data: &[u8]) -> (r: u16)
    requires
        data@.len() % 2 == 0,
        word_sum(data@) <= u32::MAX,
    ensures
        r == complement_of(word_sum(data@)),
{
    let mut sum: u32 = 0;
    let mut i: usize = 0;
    assert(data@.skip(0) =~= data@);
    while i < data.len()
        invariant
            i <= data.len(),
            i % 2 == 0,
            data@.len() % 2 == 0,
            sum + word_sum(data@.skip(i as int)) == word_sum(data@),
            word_sum(data@) <= u32::MAX,
        decreases data.len() - i,
    {
        assert(i + 1 < data@.len());
        proof {
            lemma_word_sum_step(data@, i as int);
        }
        let word: u32 = (data[i] as u32) * 256 + (data[i + 1] as u32);
        sum = sum + word;
        i = i + 2;
    }
    assert(data@.skip(i as int).len() == 0);
    fold_complement(sum)
}

/// The checksum of the control message `packet` sent from `src_addr` to `dst_addr`: the
/// Internet checksum over the pseudo-header and the packet, an odd last
/// byte padded with a zero.
pub fn echo_checksum_v6(src_addr: &[u8; 16], dst_addr: &[u8; 16], packet: &[u8]) -> (r: u16)
    requires
        packet@.len() <= u32::MAX,
        packet@.len() < usize::MAX,
        pseudo_header_sum(src_addr@, dst_addr@, packet@) <= u32::MAX,
    ensures
        r == complement_of(pseudo_header_sum(src_addr@, dst_addr@, packet@)),
{
    let mut sum: u32 = 0;
    let mut k: usize = 0;
    assert(src_addr@.skip(0) =~= src_addr@ && dst_addr@.skip(0) =~= dst_addr@);
    while k < 16
        invariant
            k <= 16,
            k % 2 == 0,
            sum + word_sum(src_addr@.skip(k as int)) + word_sum(dst_addr@.skip(k as int))
                == word_sum(src_addr@) + word_sum(dst_addr@),
            word_sum(src_addr@) + word_sum(dst_addr@) <= u32::MAX,
        decreases 16 - k,
    {
        proof {
            lemma_word_sum_step(src_addr@, k as int);
            lemma_word_sum_step(dst_addr@, k as int);
        }
        sum = sum + (src_addr[k] as u32) * 256 + (src_addr[k + 1] as u32);
        sum = sum + (dst_addr[k] as u32) * 256 + (dst_addr[k + 1] as u32);
        k = k + 2;
    }
    assert(src_addr@.skip(16).len() == 0 && dst_addr@.skip(16).len() == 0);
    let length: u32 = packet.len() as u32;
    let high: u32 = length >> 16u32;
    let low: u32 = length & 0xFFFF;
    assert(high == length / 65536 && low == length % 65536) by (bit_vector)
        requires
            high == length >> 16u32,
            low == length & 0xFFFF,
    ;
    sum = sum + high;
    sum = sum + low;
    sum = sum + 58;
    assert(packet@.skip(0) =~= packet@);
    let mut i: usize = 0;
    while i < packet.len()
        invariant
            i <= packet.len() + 1,
            packet@.len() < usize::MAX,
            i < packet.len() ==> sum + word_sum(packet@.skip(i as int)) == pseudo_header_sum(
                src_addr@,
                dst_addr@,
                packet@,
            ),
            i >= packet.len() ==> sum == pseudo_header_sum(src_addr@, dst_addr@, packet@),
            pseudo_header_sum(src_addr@, dst_addr@, packet@) <= u32::MAX,
        decreases packet.len() + 1 - i,
    {
        proof {
            lemma_word_sum_step(packet@, i as int);
        }
        if i + 1 < packet.len() {
            sum = sum + (packet[i] as u32) * 256 + (packet[i + 1] as u32);
            if i + 2 >= packet.len() {
                assert(packet@.skip(i + 2).len() == 0);
            }
        } else {
            sum = sum + (packet[i] as u32) * 256;
        }
        i = i + 2;
    }
    fold_complement(sum)
}

/// Echo data of `size` bytes: byte `i` is `i` mod 256.
pub open spec fn echo_data(size: nat) -> Seq<u8> {
    Seq::new(size, |i: int| (i % 256) as u8)
}

/// An echo request message: the header (type, code, checksum, identifier,
/// sequence), its 16-bit fields in the little-endian order of the header as
/// it lies in memory, then `size` bytes of echo data.
pub open spec fn echo_message(id: u16, seq: u16, sum: u16, size: nat) -> Seq<u8> {
    seq![
        ECHO_REQUEST_V6, 0u8, (sum % 256) as u8, (sum / 256) as u8,
        (id % 256) as u8, (id / 256) as u8, (seq % 256) as u8, (seq / 256) as u8,
    ] + echo_data(size)
}

/// An IPv6 packet from `src` to `dst` carrying `payload`: version 6, no
/// traffic class or flow label, the payload length (cut to 16 bits)
/// big-endian, next header 58, hop limit 64, the addresses, the payload.
pub open spec fn ipv6_packet(src: Seq<u8>, dst: Seq<u8>, payload: Seq<u8>) -> Seq<u8> {
    let len = payload.len() % 65536;
    seq![0x60u8, 0u8, 0u8, 0u8, (len / 256) as u8, (len % 256) as u8, 58u8, 64u8] + src + dst
        + payload
}

/// The echo request sent to `dst` from `src`: its checksum is taken over the
/// message with a zero checksum field and then written into that field.
pub open spec fn echo_request_packet(src: Seq<u8>, dst: Seq<u8>, id: u16, seq: u16, size: nat) -> Seq<u8> {
    let sum = complement_of(pseudo_header_sum(src, dst, echo_message(id, seq, 0, size)));
    ipv6_packet(src, dst, echo_message(id, seq, sum, size))
}

/// Whether the first bytes of a received IPv6 packet are an echo reply with
/// the given identifier and sequence (both read big-endian).
pub open spec fn is_echo_reply_for(reply: Seq<u8>, id: u16, seq: u16) -> bool {
    &&& reply.len() >= 48
    &&& reply[40] == ECHO_REPLY_V6
    &&& (reply[44] as nat) * 256 + (reply[45] as nat) == id
    &&& (reply[46] as nat) * 256 + (reply[47] as nat) == seq
}

/// Appends `src` to `v`.
fn push_all(v: &mut Vec<u8>, src: &[u8])
    ensures
        final(v)@ == old(v)@ + src@,
{
    let mut i: usize = 0;
    while i < src.len()
        invariant
            i <= src.len(),
            v@ == old(v)@ + src@.take(i as int),
        decreases src.len() - i,
    {
        v.push(src[i]);
        assert(src@.take(i + 1) =~= src@.take(i as int).push(src@[i as int]));
        i = i + 1;
    }
    assert(src@.take(i as int) =~= src@);
}

/// Builds the echo request of `packet_size` data bytes with `identifier` and
/// `sequence`, wrapped in an IPv6 packet from `src_addr` to `dst_addr`.
pub fn echo_request(
    src_addr: &[u8; 16],
    dst_addr: &[u8; 16],
    identifier: u16,
    sequence: u16,
    packet_size: usize,
) -> (r: Vec<u8>)
    requires
        packet_size <= MAX_ECHO_DATA,
    ensures
        r@ == echo_request_packet(src_addr@, dst_addr@, identifier, sequence, packet_size as nat),
{
    let mut msg: Vec<u8> = Vec::new();
    msg.push(ECHO_REQUEST_V6);
    msg.push(0);
    msg.push(0);
    msg.push(0);
    msg.push((identifier % 256) as u8);
    msg.push((identifier / 256) as u8);
    msg.push((sequence % 256) as u8);
    msg.push((sequence / 256) as u8);
    let ghost head = msg@;
    let mut i: usize = 0;
    while i < packet_size
        invariant
            i <= packet_size,
            msg@ == head + echo_data(i as nat),
        decreases packet_size - i,
    {
        msg.push((i % 256) as u8);
        assert(echo_data((i + 1) as nat) =~= echo_data(i as nat).push((i % 256) as u8));
        i = i + 1;
    }
    assert(msg@ =~= echo_message(identifier, sequence, 0, packet_size as nat));
    proof {
        let m = msg@;
        lemma_word_sum_bound(src_addr@);
        lemma_word_sum_bound(dst_addr@);
        lemma_word_sum_bound(m);
        assert(pseudo_header_sum(src_addr@, dst_addr@, m) <= u32::MAX) by (nonlinear_arith)
            requires
                word_sum(src_addr@) <= 65535 * 8,
                word_sum(dst_addr@) <= 65535 * 8,
                word_sum(m) <= 65535 * ((m.len() + 1) / 2),
                m.len() <= 131036,
                pseudo_header_sum(src_addr@, dst_addr@, m) == word_sum(src_addr@) + word_sum(dst_addr@)
                    + m.len() / 65536 + m.len() % 65536 + 58 + word_sum(m),
        ;
    }
    let sum = echo_checksum_v6(src_addr, dst_addr, msg.as_slice());
    msg.set(2, (sum % 256) as u8);
    msg.set(3, (sum / 256) as u8);
    assert(msg@ =~= echo_message(identifier, sequence, sum, packet_size as nat));
    let mut out: Vec<u8> = Vec::new();
    let len: u16 = (msg.len() % 65536) as u16;
    out.push(0x60);
    out.push(0);
    out.push(0);
    out.push(0);
    out.push((len / 256) as u8);
    out.push((len % 256) as u8);
    out.push(NEXT_HEADER_CONTROL_V6);
    out.push(64);
    push_all(&mut out, src_addr);
    push_all(&mut out, dst_addr);
    push_all(&mut out, msg.as_slice());
    assert(out@ =~= ipv6_packet(src_addr@, dst_addr@, msg@));
    out
}

/// Whether the first `n` bytes of `buf`, a received IPv6 packet, are the
/// echo reply with `identifier` and `sequence`.
pub fn echo_reply_matches(buf: &[u8], n: usize, identifier: u16, sequence: u16) -> (b: bool)
    requires
        n <= buf@.len(),
    ensures
        b == is_echo_reply_for(buf@.take(n as int), identifier, sequence),
{
    if n < 48 {
        return false;
    }
    if buf[40] != ECHO_REPLY_V6 {
        return false;
    }
    let reply_id: u32 = (buf[44] as u32) * 256 + (buf[45] as u32);
    let reply_seq: u32 = (buf[46] as u32) * 256 + (buf[47] as u32);
    reply_id == identifier as u32 && reply_seq == sequence as u32
}

/// The IPv4 header of a packet from `src` to `dst` carrying `payload`, with
/// a zero checksum: version 4 with five words, total length (cut to 16 bits)
/// in the little-endian order of the header in memory, no fragment, time to
/// live 64, protocol 1.
pub open spec fn ipv4_header(src: Seq<u8>, dst: Seq<u8>, payload_len: nat) -> Seq<u8> {
    let total = (20 + payload_len) % 65536;
    seq![0x45u8, 0u8, (total % 256) as u8, (total / 256) as u8, 0u8, 0u8, 0u8, 0u8, 64u8, 1u8, 0u8, 0u8]
        + src + dst
}

/// The IPv4 packet: the header with its own checksum written big-endian
/// in place of the zero field, then the payload.
pub open spec fn ipv4_packet_of(src: Seq<u8>, dst: Seq<u8>, payload: Seq<u8>) -> Seq<u8> {
    let h = ipv4_header(src, dst, payload.len());
    let sum = complement_of(word_sum(h));
    h.take(10) + seq![(sum / 256) as u8, (sum % 256) as u8] + h.skip(12) + payload
}

/// Wraps `payload` in an IPv4 packet from `src` to `dst`.
pub fn ipv4_packet(src: &[u8; 4], dst: &[u8; 4], payload: &[u8]) -> (r: Vec<u8>)
    requires
        payload@.len() + 20 <= usize::MAX,
    ensures
        r@ == ipv4_packet_of(src@, dst@, payload@),
{
    let total: u16 = ((20 + payload.len()) % 65536) as u16;
    let mut h: Vec<u8> = Vec::new();
    h.push(0x45);
    h.push(0);
    h.push((total % 256) as u8);
    h.push((total / 256) as u8);
    h.push(0);
    h.push(0);
    h.push(0);
    h.push(0);
    h.push(64);
    h.push(1);
    h.push(0);
    h.push(0);
    push_all(&mut h, src);
    push_all(&mut h, dst);
    assert(h@ =~= ipv4_header(src@, dst@, payload@.len()));
    proof {
        lemma_word_sum_bound(h@);
    }
    let sum = checksum(h.as_slice());
    let mut out: Vec<u8> = Vec::new();
    let mut i: usize = 0;
    while i < 10
        invariant
            i <= 10,
            h@.len() == 20,
            out@ == h@.take(i as int),
        decreases 10 - i,
    {
        out.push(h[i]);
        assert(h@.take(i + 1) =~= h@.take(i as int).push(h@[i as int]));
        i = i + 1;
    }
    out.push((sum / 256) as u8);
    out.push((sum % 256) as u8);
    let mut j: usize = 12;
    while j < 20
        invariant
            12 <= j <= 20,
            h@.len() == 20,
            out@ == h@.take(10) + seq![(sum / 256) as u8, (sum % 256) as u8] + h@.subrange(12, j as int),
        decreases 20 - j,
    {
        out.push(h[j]);
        assert(h@.subrange(12, j + 1) =~= h@.subrange(12, j as int).push(h@[j as int]));
        j = j + 1;
    }
    assert(h@.subrange(12, 20) =~= h@.skip(12));
    push_all(&mut out, payload);
    out
}

proof fn lemma_word_sum_concat(a: Seq<u8>, b: Seq<u8>)
    requires
        a.len() % 2 == 0,
    ensures
        word_sum(a + b) == word_sum(a) + word_sum(b),
    decreases a.len(),
{
    if a.len() == 0 {
        assert(a + b =~= b);
    } else {
        assert((a + b).skip(2) =~= a.skip(2) + b);
        lemma_word_sum_concat(a.skip(2), b);
    }
}

/// Folding keeps a sum's residue mod 65535, keeps it positive when it was,
/// and lands in 16 bits.
proof fn lemma_fold16_props(x: nat)
    ensures
        fold16(x) % 65535 == x % 65535,
        x > 0 ==> fold16(x) > 0,
        fold16(x) < 65536,
    decreases x,
{
    if x >= 65536 {
        let q = x / 65536;
        let r = x % 65536;
        vstd::arithmetic::div_mod::lemma_fundamental_div_mod(x as int, 65536);
        assert(x == 65535 * q + (q + r));
        vstd::arithmetic::div_mod::lemma_mod_multiples_vanish(q as int, (q + r) as int, 65535);
        assert(q + r < x) by (nonlinear_arith)
            requires
                x == 65536 * q + r,
                q >= 1,
        ;
        lemma_fold16_props(q + r);
    }
}

/// A sum with its own complement added checks out: it folds to all ones,
/// so the complement of that is zero.
proof fn lemma_sum_with_complement(s: nat)
    ensures
        complement_of(s + complement_of(s) as nat) == 0,
{
    lemma_fold16_props(s);
    let f = fold16(s);
    let t: nat = (s + (65535 - f)) as nat;
    assert(complement_of(s) as nat == 65535 - f);
    assert(t % 65535 == 0) by (nonlinear_arith)
        requires
            f % 65535 == s % 65535,
            t == s + (65535 - f),
            f < 65536,
    {
        vstd::arithmetic::div_mod::lemma_fundamental_div_mod(s as int, 65535);
        vstd::arithmetic::div_mod::lemma_fundamental_div_mod(f as int, 65535);
    }
    assert(t > 0);
    lemma_fold16_props(t);
    let g = fold16(t);
    assert(g == 65535) by (nonlinear_arith)
        requires
            g % 65535 == t % 65535,
            t % 65535 == 0,
            0 < g < 65536,
    ;
}

/// A receiver that sums the IPv4 header as sent, checksum included, finds
/// the Internet checksum of it to be zero.
pub proof fn lemma_ipv4_header_checks_out(src: Seq<u8>, dst: Seq<u8>, payload: Seq<u8>)
    requires
        src.len() == 4,
        dst.len() == 4,
    ensures
        complement_of(word_sum(ipv4_packet_of(src, dst, payload).take(20))) == 0,
{
    let h = ipv4_header(src, dst, payload.len());
    let c = complement_of(word_sum(h));
    let mid = seq![(c / 256) as u8, (c % 256) as u8];
    let p = ipv4_packet_of(src, dst, payload);
    assert(p.take(20) =~= h.take(10) + (mid + h.skip(12)));
    assert(h =~= h.take(10) + (h.subrange(10, 12) + h.skip(12)));
    lemma_word_sum_concat(mid, h.skip(12));
    lemma_word_sum_concat(h.subrange(10, 12), h.skip(12));
    lemma_word_sum_concat(h.take(10), mid + h.skip(12));
    lemma_word_sum_concat(h.take(10), h.subrange(10, 12) + h.skip(12));
    assert(word_sum(h.subrange(10, 12)) == 0) by {
        let z = h.subrange(10, 12);
        assert(z.skip(2) =~= Seq::<u8>::empty());
        assert(z[0] == 0 && z[1] == 0);
        reveal_with_fuel(word_sum, 2);
    }
    assert(word_sum(mid) == c) by {
        assert(mid.skip(2) =~= Seq::<u8>::empty());
        assert(mid[0] as nat * 256 + mid[1] as nat == c);
        reveal_with_fuel(word_sum, 2);
    }
    lemma_sum_with_complement(word_sum(h));
}

/// The control-message checksum does not depend on which address is the
/// source and which the destination.
pub proof fn lemma_echo_checksum_symmetric(src: Seq<u8>, dst: Seq<u8>, packet: Seq<u8>)
    ensures
        complement_of(pseudo_header_sum(src, dst, packet)) == complement_of(
            pseudo_header_sum(dst, src, packet),
        ),
{
}

/// A control message whose checksum field (bytes 2 and 3) was zero when its
/// checksum was taken, sent with that checksum written there big-endian,
/// checks out at the receiver: the checksum over pseudo-header and message
/// is then zero.
pub proof fn lemma_echo_checksum_checks_out(src: Seq<u8>, dst: Seq<u8>, packet: Seq<u8>)
    requires
        packet.len() >= 4,
        packet[2] == 0,
        packet[3] == 0,
    ensures
        ({
            let c = complement_of(pseudo_header_sum(src, dst, packet));
            let sent = packet.update(2, (c / 256) as u8).update(3, (c % 256) as u8);
            complement_of(pseudo_header_sum(src, dst, sent)) == 0
        }),
{
    let c = complement_of(pseudo_header_sum(src, dst, packet));
    let sent = packet.update(2, (c / 256) as u8).update(3, (c % 256) as u8);
    let mid = seq![(c / 256) as u8, (c % 256) as u8];
    let zero = packet.subrange(2, 4);
    assert(sent =~= packet.take(2) + (mid + packet.skip(4)));
    assert(packet =~= packet.take(2) + (zero + packet.skip(4)));
    lemma_word_sum_concat(mid, packet.skip(4));
    lemma_word_sum_concat(zero, packet.skip(4));
    lemma_word_sum_concat(packet.take(2), mid + packet.skip(4));
    lemma_word_sum_concat(packet.take(2), zero + packet.skip(4));
    assert(word_sum(zero) == 0) by {
        assert(zero.skip(2) =~= Seq::<u8>::empty());
        assert(zero[0] == 0 && zero[1] == 0);
        reveal_with_fuel(word_sum, 2);
    }
    assert(word_sum(mid) == c) by {
        assert(mid.skip(2) =~= Seq::<u8>::empty());
        assert(mid[0] as nat * 256 + mid[1] as nat == c);
        reveal_with_fuel(word_sum, 2);
    }
    assert(sent.len() == packet.len());
    assert(pseudo_header_sum(src, dst, sent) == pseudo_header_sum(src, dst, packet) + c);
    lemma_sum_with_complement(pseudo_header_sum(src, dst, packet));
}

/// Data of whole words followed by its own checksum, big-endian, checks
/// out: the checksum of the whole is zero.
pub proof fn lemma_checksum_appended_checks_out(data: Seq<u8>)
    requires
        data.len() % 2 == 0,
    ensures
        ({
            let c = complement_of(word_sum(data));
            complement_of(word_sum(data + seq![(c / 256) as u8, (c % 256) as u8])) == 0
        }),
{
    let c = complement_of(word_sum(data));
    let tail = seq![(c / 256) as u8, (c % 256) as u8];
    lemma_word_sum_concat(data, tail);
    assert(word_sum(tail) == c) by {
        assert(tail.skip(2) =~= Seq::<u8>::empty());
        assert(tail[0] as nat * 256 + tail[1] as nat == c);
        reveal_with_fuel(word_sum, 2);
    }
    lemma_sum_with_complement(word_sum(data));
}

} // verus!
