//! BBRv3 congestion control: states, the monitoring record and its wire
//! form, the windowed min/max filter, and the integer pacing and BDP rules.
use vstd::prelude::*;
use std::collections::VecDeque;

verus! {

/// BBRv3 state machine states.
#[derive(Debug, Clone, Copy, PartialEq, Eq, Structural)]
pub enum BbrState {
    /// Initial state: exponentially grow to find available bandwidth.
    Startup,
    /// Drain any queue that built up during Startup.
    Drain,
    /// Steady state: probe for bandwidth with an 8-phase cycle.
    ProbeBw,
    /// Periodically probe for minimum RTT.
    ProbeRtt,
}

/// Display name of a state.
pub open spec fn state_name(s: BbrState) -> &'static str {
    match s {
        BbrState::Startup => "STARTUP",
        BbrState::Drain => "DRAIN",
        BbrState::ProbeBw => "PROBE_BW",
        BbrState::ProbeRtt => "PROBE_RTT",
    }
}

impl BbrState {
    /// Display name of the state.
    pub fn name(&self) -> (s: &'static str)
        ensures
            s@ == state_name(*self)@,
    {
        match self {
            BbrState::Startup => "STARTUP",
            BbrState::Drain => "DRAIN",
            BbrState::ProbeBw => "PROBE_BW",
            BbrState::ProbeRtt => "PROBE_RTT",
        }
    }

    /// The state's number in the monitoring record (0 to 3, in declaration
    /// order).
    pub fn code(&self) -> (n: u8)
        ensures
            n == state_code(*self),
    {
        match self {
            BbrState::Startup => 0,
            BbrState::Drain => 1,
            BbrState::ProbeBw => 2,
            BbrState::ProbeRtt => 3,
        }
    }
}

/// The state's number in the monitoring record.
pub open spec fn state_code(s: BbrState) -> u8 {
    match s {
        BbrState::Startup => 0,
        BbrState::Drain => 1,
        BbrState::ProbeBw => 2,
        BbrState::ProbeRtt => 3,
    }
}

/// Metrics exposed for real-time monitoring.
#[derive(Debug, Clone, Copy, PartialEq, Eq, Structural)]
pub struct BbrMetrics {
    /// Current state (0=Startup, 1=Drain, 2=ProbeBw, 3=ProbeRtt).
    pub state: u8,
    /// Estimated bottleneck bandwidth (bytes/sec).
    pub btl_bw: u64,
    /// Minimum RTT (microseconds).
    pub min_rtt_us: u64,
    /// Current pacing rate (bytes/sec).
    pub pacing_rate: u64,
    /// Current congestion window (bytes).
    pub cwnd: u64,
    /// Bytes currently in flight.
    pub inflight: u64,
    /// Total bytes delivered.
    pub delivered: u64,
    /// Current loss rate (0-100).
    pub loss_rate_pct: u8,
    /// Current ECN mark rate (0-100).
    pub ecn_rate_pct: u8,
    /// ProbeBw cycle index (0-7).
    pub probe_bw_cycle: u8,
    /// Rounds since last bandwidth increase.
    pub full_bw_cnt: u8,
    /// Whether full bandwidth has been reached.
    pub full_bw_reached: bool,
}

/// Byte `i` (0 = least significant) of `x`.
pub open spec fn byte_of(x: u64, i: int) -> u8 {
    ((x >> (8 * i) as u64) & 0xffu64) as u8
}

/// The `u64` stored little-endian in `b[off..off + 8]`.
pub open spec fn le_u64_at(b: Seq<u8>, off: int) -> u64 {
    (b[off] as u64) | ((b[off + 1] as u64) << 8u64) | ((b[off + 2] as u64) << 16u64) | ((b[off
        + 3] as u64) << 24u64) | ((b[off + 4] as u64) << 32u64) | ((b[off + 5] as u64) << 40u64)
        | ((b[off + 6] as u64) << 48u64) | ((b[off + 7] as u64) << 56u64)
}

/// `b[off..off + 8]` holds `x` little-endian.
pub open spec fn holds_le_u64(b: Seq<u8>, off: int, x: u64) -> bool {
    forall|i: int| 0 <= i < 8 ==> #[trigger] b[off + i] == byte_of(x, i)
}

/// The 64-byte wire form of a metrics record: state at 0, the six counters
/// little-endian at 1, 9, 17, 25, 33 and 41, the four small fields at 49 to
/// 52, the flag as 0 or 1 at 53, zeros after.
pub open spec fn is_wire_form(b: Seq<u8>, m: BbrMetrics) -> bool {
    &&& b.len() == 64
    &&& b[0] == m.state
    &&& holds_le_u64(b, 1, m.btl_bw)
    &&& holds_le_u64(b, 9, m.min_rtt_us)
    &&& holds_le_u64(b, 17, m.pacing_rate)
    &&& holds_le_u64(b, 25, m.cwnd)
    &&& holds_le_u64(b, 33, m.inflight)
    &&& holds_le_u64(b, 41, m.delivered)
    &&& b[49] == m.loss_rate_pct
    &&& b[50] == m.ecn_rate_pct
    &&& b[51] == m.probe_bw_cycle
    &&& b[52] == m.full_bw_cnt
    &&& b[53] == (if m.full_bw_reached { 1u8 } else { 0u8 })
    &&& forall|i: int| 54 <= i < 64 ==> #[trigger] b[i] == 0
}

/// The metrics record read from a 64-byte buffer.
pub open spec fn decoded(b: Seq<u8>) -> BbrMetrics {
    BbrMetrics {
        state: b[0],
        btl_bw: le_u64_at(b, 1),
        min_rtt_us: le_u64_at(b, 9),
        pacing_rate: le_u64_at(b, 17),
        cwnd: le_u64_at(b, 25),
        inflight: le_u64_at(b, 33),
        delivered: le_u64_at(b, 41),
        loss_rate_pct: b[49],
        ecn_rate_pct: b[50],
        probe_bw_cycle: b[51],
        full_bw_cnt: b[52],
        full_bw_reached: b[53] != 0,
    }
}

/// Writes `x` little-endian at `buf[off..off + 8]`.
fn put_u64_le(buf: &mut [u8; 64], off: usize, x: u64)
    requires
        off + 8 <= 64,
    ensures
        holds_le_u64(final(buf)@, off as int, x),
        forall|i: int|
            0 <= i < 64 && !(off <= i < off + 8) ==> #[trigger] final(buf)@[i] == old(buf)@[i],
{
    let mut k: usize = 0;
    while k < 8
        invariant
            0 <= k <= 8,
            off + 8 <= 64,
            forall|i: int| 0 <= i < k ==> #[trigger] buf@[off + i] == byte_of(x, i),
            forall|i: int|
                0 <= i < 64 && !(off <= i < off + k) ==> #[trigger] buf@[i] == old(buf)@[i],
        decreases 8 - k,
    {
        let b = ((x >> (8 * k as u64)) & 0xff) as u8;
        buf[off + k] = b;
        k = k + 1;
    }
}

/// Reads the `u64` stored little-endian at `buf[off..off + 8]`.
fn get_u64_le(buf: &[u8; 64], off: usize) -> (x: u64)
    requires
        off + 8 <= 64,
    ensures
        x == le_u64_at(buf@, off as int),
{
    (buf[off] as u64) | ((buf[off + 1] as u64) << 8) | ((buf[off + 2] as u64) << 16) | ((buf[off
        + 3] as u64) << 24) | ((buf[off + 4] as u64) << 32) | ((buf[off + 5] as u64) << 40) | ((
    buf[off + 6] as u64) << 48) | ((buf[off + 7] as u64) << 56)
}

impl BbrMetrics {
    /// The 64-byte wire form of the record.
    pub fn to_bytes(&self) -> (b: [u8; 64])
        ensures
            is_wire_form(b@, *self),
    {
        let mut buf = [0u8; 64];
        buf[0] = self.state;
        put_u64_le(&mut buf, 1, self.btl_bw);
        put_u64_le(&mut buf, 9, self.min_rtt_us);
        put_u64_le(&mut buf, 17, self.pacing_rate);
        put_u64_le(&mut buf, 25, self.cwnd);
        put_u64_le(&mut buf, 33, self.inflight);
        put_u64_le(&mut buf, 41, self.delivered);
        buf[49] = self.loss_rate_pct;
        buf[50] = self.ecn_rate_pct;
        buf[51] = self.probe_bw_cycle;
        buf[52] = self.full_bw_cnt;
        buf[53] = if self.full_bw_reached { 1 } else { 0 };
        buf
    }

    /// The record read from its wire form (any nonzero flag byte is true).
    pub fn from_bytes(buf: &[u8; 64]) -> (m: Self)
        ensures
            m == decoded(buf@),
    {
        BbrMetrics {
            state: buf[0],
            btl_bw: get_u64_le(buf, 1),
            min_rtt_us: get_u64_le(buf, 9),
            pacing_rate: get_u64_le(buf, 17),
            cwnd: get_u64_le(buf, 25),
            inflight: get_u64_le(buf, 33),
            delivered: get_u64_le(buf, 41),
            loss_rate_pct: buf[49],
            ecn_rate_pct: buf[50],
            probe_bw_cycle: buf[51],
            full_bw_cnt: buf[52],
            full_bw_reached: buf[53] != 0,
        }
    }
}

/// Eight little-endian bytes read back give the `u64` they were cut from.
proof fn lemma_le_bytes_roundtrip(b: Seq<u8>, off: int, x: u64)
    requires
        0 <= off,
        off + 8 <= b.len(),
        holds_le_u64(b, off, x),
    ensures
        le_u64_at(b, off) == x,
{
    assert(b[off + 0] == byte_of(x, 0));
    assert(b[off + 1] == byte_of(x, 1));
    assert(b[off + 2] == byte_of(x, 2));
    assert(b[off + 3] == byte_of(x, 3));
    assert(b[off + 4] == byte_of(x, 4));
    assert(b[off + 5] == byte_of(x, 5));
    assert(b[off + 6] == byte_of(x, 6));
    assert(b[off + 7] == byte_of(x, 7));
    let (b0, b1, b2, b3) = (b[off], b[off + 1], b[off + 2], b[off + 3]);
    let (b4, b5, b6, b7) = (b[off + 4], b[off + 5], b[off + 6], b[off + 7]);
    assert((b0 as u64) | ((b1 as u64) << 8u64) | ((b2 as u64) << 16u64) | ((b3 as u64) << 24u64)
        | ((b4 as u64) << 32u64) | ((b5 as u64) << 40u64) | ((b6 as u64) << 48u64) | ((b7 as u64)
        << 56u64) == x) by (bit_vector)
        requires
            b0 == ((x >> 0u64) & 0xffu64) as u8,
            b1 == ((x >> 8u64) & 0xffu64) as u8,
            b2 == ((x >> 16u64) & 0xffu64) as u8,
            b3 == ((x >> 24u64) & 0xffu64) as u8,
            b4 == ((x >> 32u64) & 0xffu64) as u8,
            b5 == ((x >> 40u64) & 0xffu64) as u8,
            b6 == ((x >> 48u64) & 0xffu64) as u8,
            b7 == ((x >> 56u64) & 0xffu64) as u8,
    ;
}

/// Decoding the wire form of a record gives back the record.
pub proof fn lemma_metrics_roundtrip(m: BbrMetrics, b: Seq<u8>)
    requires
        is_wire_form(b, m),
    ensures
        decoded(b) == m,
{
    lemma_le_bytes_roundtrip(b, 1, m.btl_bw);
    lemma_le_bytes_roundtrip(b, 9, m.min_rtt_us);
    lemma_le_bytes_roundtrip(b, 17, m.pacing_rate);
    lemma_le_bytes_roundtrip(b, 25, m.cwnd);
    lemma_le_bytes_roundtrip(b, 33, m.inflight);
    lemma_le_bytes_roundtrip(b, 41, m.delivered);
}

/// A `u64` read little-endian from eight bytes cuts back into those bytes.
proof fn lemma_le_u64_bytes(b: Seq<u8>, off: int)
    requires
        0 <= off,
        off + 8 <= b.len(),
    ensures
        holds_le_u64(b, off, le_u64_at(b, off)),
{
    let x = le_u64_at(b, off);
    let (b0, b1, b2, b3) = (b[off], b[off + 1], b[off + 2], b[off + 3]);
    let (b4, b5, b6, b7) = (b[off + 4], b[off + 5], b[off + 6], b[off + 7]);
    assert({
        &&& b0 == ((x >> 0u64) & 0xffu64) as u8
        &&& b1 == ((x >> 8u64) & 0xffu64) as u8
        &&& b2 == ((x >> 16u64) & 0xffu64) as u8
        &&& b3 == ((x >> 24u64) & 0xffu64) as u8
        &&& b4 == ((x >> 32u64) & 0xffu64) as u8
        &&& b5 == ((x >> 40u64) & 0xffu64) as u8
        &&& b6 == ((x >> 48u64) & 0xffu64) as u8
        &&& b7 == ((x >> 56u64) & 0xffu64) as u8
    }) by (bit_vector)
        requires
            x == (b0 as u64) | ((b1 as u64) << 8u64) | ((b2 as u64) << 16u64) | ((b3 as u64)
                << 24u64) | ((b4 as u64) << 32u64) | ((b5 as u64) << 40u64) | ((b6 as u64)
                << 48u64) | ((b7 as u64) << 56u64),
    ;
    assert forall|i: int| 0 <= i < 8 implies #[trigger] b[off + i] == byte_of(x, i) by {
        assert(i == 0 || i == 1 || i == 2 || i == 3 || i == 4 || i == 5 || i == 6 || i == 7);
    }
}

/// A 64-byte buffer whose flag byte is 0 or 1 and whose last ten bytes are
/// zero is the wire form of the record read from it: writing that record
/// out gives back every byte of the buffer.
pub proof fn lemma_bytes_roundtrip(b: Seq<u8>, written: Seq<u8>)
    requires
        b.len() == 64,
        b[53] <= 1,
        forall|i: int| 54 <= i < 64 ==> #[trigger] b[i] == 0,
        is_wire_form(written, decoded(b)),
    ensures
        written == b,
{
    lemma_le_u64_bytes(b, 1);
    lemma_le_u64_bytes(b, 9);
    lemma_le_u64_bytes(b, 17);
    lemma_le_u64_bytes(b, 25);
    lemma_le_u64_bytes(b, 33);
    lemma_le_u64_bytes(b, 41);
    assert forall|i: int| 0 <= i < 64 implies #[trigger] written[i] == b[i] by {
        if 1 <= i < 9 {
            assert(written[1 + (i - 1)] == b[1 + (i - 1)]);
        } else if 9 <= i < 17 {
            assert(written[9 + (i - 9)] == b[9 + (i - 9)]);
        } else if 17 <= i < 25 {
            assert(written[17 + (i - 17)] == b[17 + (i - 17)]);
        } else if 25 <= i < 33 {
            assert(written[25 + (i - 25)] == b[25 + (i - 25)]);
        } else if 33 <= i < 41 {
            assert(written[33 + (i - 33)] == b[33 + (i - 33)]);
        } else if 41 <= i < 49 {
            assert(written[41 + (i - 41)] == b[41 + (i - 41)]);
        }
    }
    assert(written =~= b);
}

/// Minimum congestion window, in packets.
pub const BBR_MIN_CWND_PACKETS: u64 = 4;

/// Inter-packet gap in microseconds for `packet_size` bytes at `pacing_rate`
/// bytes per second (0 when there is no rate yet); the quotient is cut to 64
/// bits.
pub fn pacing_delay_us(pacing_rate: u64, packet_size: u64) -> (d: u64)
    ensures
        pacing_rate == 0 ==> d == 0,
        pacing_rate != 0 ==> d == ((packet_size * 1_000_000) / (pacing_rate as int)) as u64,
{
    if pacing_rate == 0 {
        return 0;
    }
    assert(packet_size * 1_000_000 <= u128::MAX) by (nonlinear_arith)
        requires
            packet_size <= u64::MAX,
    ;
    (packet_size as u128 * 1_000_000 / pacing_rate as u128) as u64
}

/// Bandwidth-delay product in bytes: bandwidth times minimum RTT, at least
/// the minimum window; the minimum window alone while no RTT is known
/// (`u64::MAX`) or it is 0.
pub fn bdp(btl_bw: u64, min_rtt_us: u64, mss: u64) -> (b: u64)
    requires
        BBR_MIN_CWND_PACKETS * mss <= u64::MAX,
    ensures
        (min_rtt_us == u64::MAX || min_rtt_us == 0) ==> b == BBR_MIN_CWND_PACKETS * mss,
        !(min_rtt_us == u64::MAX || min_rtt_us == 0) ==> {
            let raw = ((btl_bw * min_rtt_us) / 1_000_000) as u64;
            b == if raw >= BBR_MIN_CWND_PACKETS * mss { raw } else { (BBR_MIN_CWND_PACKETS * mss) as u64 }
        },
{
    let floor = BBR_MIN_CWND_PACKETS * mss;
    if min_rtt_us == u64::MAX || min_rtt_us == 0 {
        return floor;
    }
    assert(btl_bw * min_rtt_us <= u128::MAX) by (nonlinear_arith)
        requires
            btl_bw <= u64::MAX,
            min_rtt_us <= u64::MAX,
    ;
    let raw = (btl_bw as u128 * min_rtt_us as u128 / 1_000_000) as u64;
    if raw >= floor {
        raw
    } else {
        floor
    }
}

/// Whether sample value `v` is superseded by a newer value `w`: for a max
/// filter when it is not larger, for a min filter when it is not smaller.
pub open spec fn superseded(v: u64, w: u64, is_max: bool) -> bool {
    if is_max {
        v <= w
    } else {
        v >= w
    }
}

/// The samples left after dropping those older than `cutoff` from the front.
pub open spec fn drop_expired(s: Seq<(u64, u64)>, cutoff: u64) -> Seq<(u64, u64)>
    decreases s.len(),
{
    if s.len() > 0 && s[0].0 < cutoff {
        drop_expired(s.drop_first(), cutoff)
    } else {
        s
    }
}

/// The samples left after dropping, from the back, those that `w`
/// supersedes.
pub open spec fn drop_superseded(s: Seq<(u64, u64)>, w: u64, is_max: bool) -> Seq<(u64, u64)>
    decreases s.len(),
{
    if s.len() > 0 && superseded(s.last().1, w, is_max) {
        drop_superseded(s.drop_last(), w, is_max)
    } else {
        s
    }
}

/// Sample values strictly decrease from front to back for a max filter and
/// strictly increase for a min filter.
pub open spec fn monotone(s: Seq<(u64, u64)>, is_max: bool) -> bool {
    forall|i: int, j: int|
        0 <= i < j < s.len() ==> if is_max {
            #[trigger] s[i].1 > #[trigger] s[j].1
        } else {
            s[i].1 < s[j].1
        }
}

/// A windowed min/max filter: the front sample holds the extreme value of
/// the window.
pub struct WindowedFilter {
    samples: VecDeque<(u64, u64)>,
    window_us: u64,
    is_max: bool,
}

impl WindowedFilter {
    /// Samples (timestamp, value), oldest first.
    pub closed spec fn samples_seq(&self) -> Seq<(u64, u64)> {
        self.samples@
    }

    /// Window length in microseconds.
    pub closed spec fn window(&self) -> u64 {
        self.window_us
    }

    /// Whether this is a max filter (else a min filter).
    pub closed spec fn max_filter(&self) -> bool {
        self.is_max
    }

    /// The filter's invariant: sample values are strictly monotone.
    pub open spec fn wf(&self) -> bool {
        monotone(self.samples_seq(), self.max_filter())
    }

    /// An empty filter over `window_us` microseconds.
    pub fn new(window_us: u64, is_max: bool) -> (f: Self)
        ensures
            f.wf(),
            f.samples_seq() == Seq::<(u64, u64)>::empty(),
            f.window() == window_us,
            f.max_filter() == is_max,
    {
        WindowedFilter { samples: VecDeque::with_capacity(16), window_us, is_max }
    }

    /// Adds sample `value` at `timestamp_us`: samples older than the window
    /// leave from the front, samples the new value supersedes leave from the
    /// back, and the new sample goes last.
    pub fn update(&mut self, timestamp_us: u64, value: u64)
        requires
            old(self).wf(),
        ensures
            final(self).wf(),
            final(self).window() == old(self).window(),
            final(self).max_filter() == old(self).max_filter(),
            final(self).samples_seq() == drop_superseded(
                drop_expired(
                    old(self).samples_seq(),
                    timestamp_us.saturating_sub(old(self).window()),
                ),
                value,
                old(self).max_filter(),
            ).push((timestamp_us, value)),
    {
        let cutoff = timestamp_us.saturating_sub(self.window_us);
        let ghost s0 = self.samples@;
        loop
            invariant
                drop_expired(s0, cutoff) == drop_expired(self.samples@, cutoff),
                monotone(self.samples@, self.is_max),
                self.is_max == old(self).is_max,
                self.window_us == old(self).window_us,
            ensures
                drop_expired(s0, cutoff) == self.samples@,
                monotone(self.samples@, self.is_max),
                self.is_max == old(self).is_max,
                self.window_us == old(self).window_us,
            decreases self.samples@.len(),
        {
            if self.samples.len() == 0 {
                break;
            }
            let (ts, _) = self.samples[0];
            if ts < cutoff {
                let ghost before = self.samples@;
                self.samples.pop_front();
                assert(self.samples@ =~= before.drop_first());
                assert(monotone(self.samples@, self.is_max)) by {
                    assert forall|i: int, j: int| 0 <= i < j < self.samples@.len() implies (if self.is_max {
                        #[trigger] self.samples@[i].1 > #[trigger] self.samples@[j].1
                    } else {
                        self.samples@[i].1 < self.samples@[j].1
                    }) by {
                        assert(self.samples@[i] == before[i + 1]);
                        assert(self.samples@[j] == before[j + 1]);
                    }
                }
            } else {
                break;
            }
        }
        let ghost s1 = self.samples@;
        loop
            invariant
                drop_superseded(s1, value, self.is_max) == drop_superseded(
                    self.samples@,
                    value,
                    self.is_max,
                ),
                monotone(self.samples@, self.is_max),
                self.is_max == old(self).is_max,
                self.window_us == old(self).window_us,
            ensures
                drop_superseded(s1, value, self.is_max) == self.samples@,
                monotone(self.samples@, self.is_max),
                self.samples@.len() > 0 ==> !superseded(self.samples@.last().1, value, self.is_max),
                self.is_max == old(self).is_max,
                self.window_us == old(self).window_us,
            decreases self.samples@.len(),
        {
            let n = self.samples.len();
            if n == 0 {
                break;
            }
            let (_, v) = self.samples[n - 1];
            let remove = if self.is_max { v <= value } else { v >= value };
            if remove {
                let ghost before = self.samples@;
                self.samples.pop_back();
                assert(self.samples@ =~= before.drop_last());
                assert(monotone(self.samples@, self.is_max)) by {
                    assert forall|i: int, j: int| 0 <= i < j < self.samples@.len() implies (if self.is_max {
                        #[trigger] self.samples@[i].1 > #[trigger] self.samples@[j].1
                    } else {
                        self.samples@[i].1 < self.samples@[j].1
                    }) by {
                        assert(self.samples@[i] == before[i]);
                        assert(self.samples@[j] == before[j]);
                    }
                }
            } else {
                break;
            }
        }
        let ghost s2 = self.samples@;
        self.samples.push_back((timestamp_us, value));
        proof {
            let t = self.samples@;
            assert(t =~= s2.push((timestamp_us, value)));
            assert forall|i: int, j: int| 0 <= i < j < t.len() implies (if self.is_max {
                #[trigger] t[i].1 > #[trigger] t[j].1
            } else {
                t[i].1 < t[j].1
            }) by {
                if j == s2.len() {
                    assert(t[i] == s2[i]);
                    if i < s2.len() - 1 {
                        assert(s2[i].1 != s2.last().1);
                        assert(s2.last() == s2[s2.len() - 1]);
                    }
                } else {
                    assert(t[i] == s2[i]);
                    assert(t[j] == s2[j]);
                }
            }
        }
    }

    /// The extreme value of the window: the front sample's value.
    pub fn get(&self) -> (r: Option<u64>)
        ensures
            self.samples_seq().len() == 0 ==> r is None,
            self.samples_seq().len() > 0 ==> r == Some(self.samples_seq()[0].1),
    {
        if self.samples.len() == 0 {
            None
        } else {
            Some(self.samples[0].1)
        }
    }

    /// Drops every sample.
    pub fn reset(&mut self)
        ensures
            final(self).wf(),
            final(self).samples_seq() == Seq::<(u64, u64)>::empty(),
            final(self).window() == old(self).window(),
            final(self).max_filter() == old(self).max_filter(),
    {
        self.samples.clear();
    }
}

/// In a well-formed filter the front value is the extreme of all samples:
/// the largest for a max filter, the smallest for a min filter.
pub proof fn lemma_front_is_extreme(f: WindowedFilter, i: int)
    requires
        f.wf(),
        0 <= i < f.samples_seq().len(),
    ensures
        f.max_filter() ==> f.samples_seq()[0].1 >= f.samples_seq()[i].1,
        !f.max_filter() ==> f.samples_seq()[0].1 <= f.samples_seq()[i].1,
{
    if i > 0 {
        assert(f.samples_seq()[0].1 == f.samples_seq()[0].1);
    }
}

/// After an update the newest value never exceeds (max filter) or falls
/// below (min filter) what `get` reports: the new sample is last.
pub proof fn lemma_update_bounds_get(f: WindowedFilter)
    requires
        f.wf(),
        f.samples_seq().len() > 0,
    ensures
        f.max_filter() ==> f.samples_seq()[0].1 >= f.samples_seq().last().1,
        !f.max_filter() ==> f.samples_seq()[0].1 <= f.samples_seq().last().1,
{
    lemma_front_is_extreme(f, f.samples_seq().len() - 1);
}

/// The samples a filter over `window` microseconds holds after it started
/// empty and received the updates `h` in order.
pub open spec fn filter_run(h: Seq<(u64, u64)>, window: u64, is_max: bool) -> Seq<(u64, u64)>
    decreases h.len(),
{
    if h.len() == 0 {
        Seq::empty()
    } else {
        let s = filter_run(h.drop_last(), window, is_max);
        let (t, v) = h.last();
        drop_superseded(drop_expired(s, t.saturating_sub(window)), v, is_max).push((t, v))
    }
}

/// `a` is at least as extreme as `b`: not smaller for a max filter, not
/// larger for a min filter.
pub open spec fn dominates(a: u64, b: u64, is_max: bool) -> bool {
    if is_max {
        a >= b
    } else {
        a <= b
    }
}

/// Timestamps never go back.
pub open spec fn in_time_order(h: Seq<(u64, u64)>) -> bool {
    forall|i: int, j: int| 0 <= i <= j < h.len() ==> #[trigger] h[i].0 <= #[trigger] h[j].0
}

/// Each sample is one of the updates `h`.
#[verifier::opaque]
spec fn from_updates(s: Seq<(u64, u64)>, h: Seq<(u64, u64)>) -> bool {
    forall|i: int| 0 <= i < s.len() ==> exists|j: int| 0 <= j < h.len() && #[trigger] s[i] == #[trigger] h[j]
}

/// Each sample is no older than `c` and no newer than `t`.
#[verifier::opaque]
spec fn between(s: Seq<(u64, u64)>, c: u64, t: u64) -> bool {
    forall|i: int| 0 <= i < s.len() ==> c <= #[trigger] s[i].0 <= t
}

/// Every update of `h` no older than `c` is matched by a sample no older
/// and no less extreme.
#[verifier::opaque]
spec fn covers(s: Seq<(u64, u64)>, h: Seq<(u64, u64)>, c: u64, is_max: bool) -> bool {
    forall|j: int| 0 <= j < h.len() && #[trigger] h[j].0 >= c ==>
        exists|i: int| 0 <= i < s.len() && #[trigger] s[i].0 >= h[j].0 && dominates(s[i].1, h[j].1, is_max)
}

/// What the samples of a filter keep of the updates `h`, with `c` the
/// window's cut-off and `t` the last update's time.
spec fn keeps_window(s: Seq<(u64, u64)>, h: Seq<(u64, u64)>, c: u64, t: u64, is_max: bool) -> bool {
    &&& from_updates(s, h)
    &&& between(s, c, t)
    &&& in_time_order(s)
    &&& monotone(s, is_max)
    &&& covers(s, h, c, is_max)
}

/// How one update reshapes the samples `s` into `r`: the first `n1` samples
/// expire (they are older than `c2`), the next `n2` stay, the rest are
/// superseded by `v`, and `(t, v)` goes last.
#[verifier::opaque]
spec fn step_shape(s: Seq<(u64, u64)>, r: Seq<(u64, u64)>, n1: int, n2: int, t: u64, v: u64, c2: u64, is_max: bool) -> bool {
    &&& 0 <= n1 <= s.len()
    &&& 0 <= n2 <= s.len() - n1
    &&& r.len() == n2 + 1
    &&& r[n2] == (t, v)
    &&& forall|i: int| 0 <= i < n2 ==> #[trigger] r[i] == s[n1 + i]
    &&& forall|i: int| 0 <= i < n1 ==> #[trigger] s[i].0 < c2
    &&& n1 < s.len() ==> s[n1].0 >= c2
    &&& forall|i: int| n1 + n2 <= i < s.len() ==> superseded(#[trigger] s[i].1, v, is_max)
    &&& n2 > 0 ==> !superseded(s[n1 + n2 - 1].1, v, is_max)
}

/// Dropping expired samples takes a prefix of older-than-cut-off samples off.
proof fn lemma_drop_expired_prefix(s: Seq<(u64, u64)>, c: u64) -> (n: int)
    ensures
        0 <= n <= s.len(),
        drop_expired(s, c) == s.skip(n),
        forall|i: int| 0 <= i < n ==> #[trigger] s[i].0 < c,
        n < s.len() ==> s[n].0 >= c,
    decreases s.len(),
{
    if s.len() > 0 && s[0].0 < c {
        let m = lemma_drop_expired_prefix(s.drop_first(), c);
        assert(s.drop_first().skip(m) =~= s.skip(m + 1));
        assert forall|i: int| 0 <= i < m + 1 implies #[trigger] s[i].0 < c by {
            if i > 0 {
                assert(s[i] == s.drop_first()[i - 1]);
            }
        }
        m + 1
    } else {
        assert(s.skip(0) =~= s);
        0
    }
}

/// Dropping superseded samples keeps a prefix; each sample dropped is
/// superseded by the new value, and the last one kept is not.
proof fn lemma_drop_superseded_prefix(s: Seq<(u64, u64)>, v: u64, is_max: bool) -> (n: int)
    ensures
        0 <= n <= s.len(),
        drop_superseded(s, v, is_max) == s.take(n),
        forall|i: int| n <= i < s.len() ==> superseded(#[trigger] s[i].1, v, is_max),
        n > 0 ==> !superseded(s[n - 1].1, v, is_max),
    decreases s.len(),
{
    if s.len() > 0 && superseded(s.last().1, v, is_max) {
        let m = lemma_drop_superseded_prefix(s.drop_last(), v, is_max);
        assert(s.drop_last().take(m) =~= s.take(m));
        assert forall|i: int| m <= i < s.len() implies superseded(#[trigger] s[i].1, v, is_max) by {
            if i < s.len() - 1 {
                assert(s[i] == s.drop_last()[i]);
            }
        }
        m
    } else {
        assert(s.take(s.len() as int) =~= s);
        s.len() as int
    }
}

/// The shape of one update.
proof fn lemma_step_shape(s: Seq<(u64, u64)>, t: u64, v: u64, window: u64, is_max: bool) -> (n: (int, int))
    ensures
        step_shape(
            s,
            drop_superseded(drop_expired(s, t.saturating_sub(window)), v, is_max).push((t, v)),
            n.0,
            n.1,
            t,
            v,
            t.saturating_sub(window),
            is_max,
        ),
{
    reveal(step_shape);
    let c2 = t.saturating_sub(window);
    let r = drop_superseded(drop_expired(s, c2), v, is_max).push((t, v));
    let n1 = lemma_drop_expired_prefix(s, c2);
    let e = s.skip(n1);
    let n2 = lemma_drop_superseded_prefix(e, v, is_max);
    let d = e.take(n2);
    assert(r == d.push((t, v)));
    assert forall|i: int| 0 <= i < n2 implies #[trigger] r[i] == s[n1 + i] by {
        assert(r[i] == d[i]);
        assert(d[i] == e[i]);
    }
    assert forall|i: int| n1 + n2 <= i < s.len() implies superseded(#[trigger] s[i].1, v, is_max) by {
        assert(e[i - n1] == s[i]);
    }
    if n2 > 0 {
        assert(e[n2 - 1] == s[n1 + n2 - 1]);
    }
    (n1, n2)
}

proof fn lemma_step_from_updates(s: Seq<(u64, u64)>, r: Seq<(u64, u64)>, hp: Seq<(u64, u64)>, h: Seq<(u64, u64)>, n1: int, n2: int, t: u64, v: u64, c2: u64, is_max: bool)
    requires
        step_shape(s, r, n1, n2, t, v, c2, is_max),
        from_updates(s, hp),
        h.len() > 0,
        hp == h.drop_last(),
        h.last() == (t, v),
    ensures
        from_updates(r, h),
{
    reveal(step_shape);
    reveal(from_updates);
    assert forall|i: int| 0 <= i < r.len() implies exists|j: int| 0 <= j < h.len() && #[trigger] r[i] == #[trigger] h[j] by {
        if i == n2 {
            assert(r[i] == h[h.len() - 1]);
        } else {
            assert(r[i] == s[n1 + i]);
            let j = choose|j: int| 0 <= j < hp.len() && #[trigger] s[n1 + i] == #[trigger] hp[j];
            assert(hp[j] == h[j]);
        }
    }
}

proof fn lemma_step_order(s: Seq<(u64, u64)>, r: Seq<(u64, u64)>, n1: int, n2: int, c: u64, tp: u64, t: u64, v: u64, c2: u64, is_max: bool)
    requires
        step_shape(s, r, n1, n2, t, v, c2, is_max),
        between(s, c, tp),
        in_time_order(s),
        monotone(s, is_max),
        tp <= t,
        c2 <= t,
    ensures
        between(r, c2, t),
        in_time_order(r),
        monotone(r, is_max),
{
    reveal(step_shape);
    reveal(between);
    assert forall|i: int| 0 <= i < r.len() implies c2 <= #[trigger] r[i].0 <= t by {
        if i < n2 {
            assert(r[i] == s[n1 + i]);
            assert(s[n1].0 <= s[n1 + i].0);
        }
    }
    assert forall|i: int, j: int| 0 <= i <= j < r.len() implies #[trigger] r[i].0 <= #[trigger] r[j].0 by {
        if j < n2 {
            assert(r[i] == s[n1 + i] && r[j] == s[n1 + j]);
        } else if i < n2 {
            assert(r[i] == s[n1 + i]);
        }
    }
    assert forall|i: int, j: int| 0 <= i < j < r.len() implies (if is_max {
        #[trigger] r[i].1 > #[trigger] r[j].1
    } else {
        r[i].1 < r[j].1
    }) by {
        assert(r[i] == s[n1 + i]);
        if j < n2 {
            assert(r[j] == s[n1 + j]);
        } else if i < n2 - 1 {
            assert(s[n1 + i].1 != s[n1 + n2 - 1].1);
        }
    }
}

proof fn lemma_step_covers(s: Seq<(u64, u64)>, r: Seq<(u64, u64)>, hp: Seq<(u64, u64)>, h: Seq<(u64, u64)>, n1: int, n2: int, c: u64, t: u64, v: u64, c2: u64, is_max: bool)
    requires
        step_shape(s, r, n1, n2, t, v, c2, is_max),
        covers(s, hp, c, is_max),
        c <= c2,
        h.len() > 0,
        hp == h.drop_last(),
        h.last() == (t, v),
        in_time_order(h),
    ensures
        covers(r, h, c2, is_max),
{
    reveal(step_shape);
    reveal(covers);
    assert(h[h.len() - 1] == h.last());
    assert forall|j: int| 0 <= j < h.len() && #[trigger] h[j].0 >= c2 implies
        exists|i: int| 0 <= i < r.len() && #[trigger] r[i].0 >= h[j].0 && dominates(r[i].1, h[j].1, is_max) by {
        if j == h.len() - 1 {
            assert(r[n2].0 >= h[j].0);
        } else {
            assert(hp[j] == h[j]);
            assert(hp[j].0 >= c);
            let k = choose|k: int| 0 <= k < s.len() && #[trigger] s[k].0 >= hp[j].0 && dominates(s[k].1, hp[j].1, is_max);
            if k < n1 {
                assert(s[k].0 < c2);
            }
            if k < n1 + n2 {
                assert(r[k - n1] == s[n1 + (k - n1)]);
                assert(r[k - n1].0 >= h[j].0);
            } else {
                assert(superseded(s[k].1, v, is_max));
                assert(h[j].0 <= h[h.len() - 1].0);
                assert(r[n2].0 >= h[j].0);
            }
        }
    }
}

/// The first update leaves the one sample it brings.
proof fn lemma_first_update_keeps_window(h: Seq<(u64, u64)>, window: u64, is_max: bool)
    requires
        h.len() == 1,
    ensures
        keeps_window(filter_run(h, window, is_max), h, h.last().0.saturating_sub(window), h.last().0, is_max),
{
    let (t, v) = h.last();
    let c2 = t.saturating_sub(window);
    let r = filter_run(h, window, is_max);
    assert(filter_run(h.drop_last(), window, is_max) =~= Seq::<(u64, u64)>::empty());
    assert(r =~= seq![(t, v)]);
    assert(h[0] == h.last());
    reveal(from_updates);
    reveal(between);
    reveal(covers);
    assert(r[0] == h[0]);
    assert forall|j: int| 0 <= j < h.len() && #[trigger] h[j].0 >= c2 implies
        exists|i: int| 0 <= i < r.len() && #[trigger] r[i].0 >= h[j].0 && dominates(r[i].1, h[j].1, is_max) by {
        assert(j == 0);
        assert(r[0].0 >= h[j].0);
    }
}

/// After the updates `h` the samples keep the window.
proof fn lemma_run_keeps_window(h: Seq<(u64, u64)>, window: u64, is_max: bool)
    requires
        h.len() > 0,
        in_time_order(h),
    ensures
        keeps_window(filter_run(h, window, is_max), h, h.last().0.saturating_sub(window), h.last().0, is_max),
    decreases h.len(),
{
    let hp = h.drop_last();
    let (t, v) = h.last();
    let c2 = t.saturating_sub(window);
    let r = filter_run(h, window, is_max);
    let s = filter_run(hp, window, is_max);
    assert(h[h.len() - 1] == h.last());
    if hp.len() == 0 {
        lemma_first_update_keeps_window(h, window, is_max);
        return;
    }
    assert forall|i: int, j: int| 0 <= i <= j < hp.len() implies #[trigger] hp[i].0 <= #[trigger] hp[j].0 by {
        assert(hp[i] == h[i] && hp[j] == h[j]);
    }
    lemma_run_keeps_window(hp, window, is_max);
    let tp = hp.last().0;
    let c = tp.saturating_sub(window);
    assert(hp.last() == h[h.len() - 2]);
    assert(tp <= t);
    let n = lemma_step_shape(s, t, v, window, is_max);
    lemma_step_from_updates(s, r, hp, h, n.0, n.1, t, v, c2, is_max);
    lemma_step_order(s, r, n.0, n.1, c, tp, t, v, c2, is_max);
    lemma_step_covers(s, r, hp, h, n.0, n.1, c, t, v, c2, is_max);
}

/// What a filter reports is the extreme of the window: after updates `h`
/// in time order, the front sample's value is the value of an update inside
/// the window ending at the last update, and it is at least as extreme as
/// every update inside that window (the newest always counts, expired ones
/// never do).
pub proof fn lemma_front_is_window_extreme(h: Seq<(u64, u64)>, window: u64, is_max: bool)
    requires
        h.len() > 0,
        in_time_order(h),
    ensures
        ({
            let s = filter_run(h, window, is_max);
            let c = h.last().0.saturating_sub(window);
            &&& s.len() > 0
            &&& exists|j: int| 0 <= j < h.len() && #[trigger] h[j].0 >= c && h[j].1 == s[0].1
            &&& forall|j: int| 0 <= j < h.len() && #[trigger] h[j].0 >= c ==> dominates(s[0].1, h[j].1, is_max)
        }),
{
    let s = filter_run(h, window, is_max);
    let t = h.last().0;
    let c = t.saturating_sub(window);
    lemma_run_keeps_window(h, window, is_max);
    assert(h[h.len() - 1] == h.last());
    assert(s.len() > 0) by {
        reveal(covers);
        assert(h[h.len() - 1].0 >= c);
    }
    assert(exists|j: int| 0 <= j < h.len() && #[trigger] h[j].0 >= c && h[j].1 == s[0].1) by {
        reveal(from_updates);
        reveal(between);
        assert(s[0].0 >= c);
        let j0 = choose|j: int| 0 <= j < h.len() && #[trigger] s[0] == #[trigger] h[j];
        assert(h[j0].0 >= c);
    }
    assert forall|j: int| 0 <= j < h.len() && #[trigger] h[j].0 >= c implies dominates(s[0].1, h[j].1, is_max) by {
        reveal(covers);
        let i = choose|i: int| 0 <= i < s.len() && #[trigger] s[i].0 >= h[j].0 && dominates(s[i].1, h[j].1, is_max);
        if i > 0 {
            assert(s[0].1 != s[i].1);
        }
    }
}

/// An update on a filter that holds the run of `h` leaves the run of `h`
/// with the new sample added, so a filter made by `new` and fed the updates
/// `h` in order holds `filter_run(h, ..)`.
pub proof fn lemma_run_step(h: Seq<(u64, u64)>, t: u64, v: u64, window: u64, is_max: bool)
    ensures
        filter_run(h.push((t, v)), window, is_max) == drop_superseded(
            drop_expired(filter_run(h, window, is_max), t.saturating_sub(window)),
            v,
            is_max,
        ).push((t, v)),
{
    assert(h.push((t, v)).drop_last() =~= h);
}

} // verus!
