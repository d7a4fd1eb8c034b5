//! The VirtIO network driver's BBRv3 controller: its states, its model of
//! the path and the integer steps of its ACK processing.
use vstd::prelude::*;
use std::time::{Duration, Instant};
use crate::nvme_driver::time::{duration_from_millis, nanos_of, now};

verus! {

/// BBR state.
#[derive(Debug, Clone, Copy, PartialEq, Eq, Structural)]
pub enum BbrState {
    /// Exponential bandwidth discovery.
    Startup,
    /// Drain queue after startup.
    Drain,
    /// Steady-state bandwidth probing.
    ProbeBw(ProbeBwPhase),
    /// Periodic RTT measurement.
    ProbeRtt,
}

/// Probe_BW sub-phases.
#[derive(Debug, Clone, Copy, PartialEq, Eq, Structural)]
pub enum ProbeBwPhase {
    /// Cruising at estimated bandwidth.
    Cruise,
    /// Refilling pipe after ProbeRTT.
    Refill,
    /// Probing for more bandwidth.
    Up,
    /// Reducing to drain any queue.
    Down,
}

/// ACK phase for loss detection.
#[derive(Debug, Clone, Copy, PartialEq, Eq, Structural)]
pub enum AckPhase {
    /// Not in ACK processing.
    Idle,
    /// Processing initial ACKs.
    Initial,
    /// Processing ACKs normally.
    Refilling,
}

/// BBR version.
pub const BBR_VERSION: u32 = 3;

/// Probe RTT duration.
pub const PROBE_RTT_DURATION_MS: u64 = 200;

/// Probe RTT interval.
pub const PROBE_RTT_INTERVAL_SEC: u64 = 10;

/// Minimum RTT filter window.
pub const MIN_RTT_FILTER_LEN_SEC: u64 = 10;

/// Segment size the send quantum and the window floor are counted in.
pub const BBR_MSS_BYTES: u64 = 1460;

/// BBR model parameters.
#[derive(Debug, Clone, Copy)]
pub struct BbrModel {
    /// Estimated bottleneck bandwidth (bytes/sec).
    pub btl_bw: u64,
    /// Minimum RTT observed.
    pub min_rtt: Duration,
    /// Maximum bandwidth sample.
    pub max_bw: u64,
    /// Current RTT sample.
    pub current_rtt: Duration,
    /// Inflight at time of the max_bw sample.
    pub max_inflight: u64,
    /// Timestamp of min_rtt.
    pub min_rtt_stamp: Instant,
    /// Round count.
    pub round_count: u64,
    /// Next round delivered count.
    pub next_round_delivered: u64,
}

impl Default for BbrModel {
    /// No bandwidth seen, RTTs of 100 ms, stamped now.
    fn default() -> (m: Self)
        ensures
            m.btl_bw == 0,
            m.max_bw == 0,
            m.max_inflight == 0,
            m.round_count == 0,
            m.next_round_delivered == 0,
            nanos_of(m.min_rtt) == 100_000_000,
            nanos_of(m.current_rtt) == 100_000_000,
    {
        BbrModel {
            btl_bw: 0,
            min_rtt: duration_from_millis(100),
            max_bw: 0,
            current_rtt: duration_from_millis(100),
            max_inflight: 0,
            min_rtt_stamp: now(),
            round_count: 0,
            next_round_delivered: 0,
        }
    }
}

impl BbrModel {
    /// Takes a bandwidth sample: a new maximum is kept with the bytes in
    /// flight at that moment, and the bottleneck estimate follows the maximum.
    pub fn update_max_bw(&mut self, bw_sample: u64, inflight: u64)
        ensures
            final(self).max_bw == if bw_sample > old(self).max_bw { bw_sample } else { old(self).max_bw },
            final(self).max_inflight == if bw_sample > old(self).max_bw { inflight } else { old(self).max_inflight },
            final(self).btl_bw == final(self).max_bw,
            final(self).round_count == old(self).round_count,
            final(self).next_round_delivered == old(self).next_round_delivered,
            final(self).min_rtt == old(self).min_rtt,
            final(self).current_rtt == old(self).current_rtt,
            final(self).min_rtt_stamp == old(self).min_rtt_stamp,
    {
        if bw_sample > self.max_bw {
            self.max_bw = bw_sample;
            self.max_inflight = inflight;
        }
        self.btl_bw = self.max_bw;
    }
}

/// The delivery rate of an ACK in bytes per second: `acked` bytes over an
/// RTT of `rtt_nanos` nanoseconds, cut to 64 bits; 0 without an RTT.
pub fn estimate_bandwidth(acked: u64, rtt_nanos: u128) -> (bw: u64)
    ensures
        rtt_nanos == 0 ==> bw == 0,
        rtt_nanos != 0 ==> bw == ((acked as int * 1_000_000_000) / (rtt_nanos as int)) % 0x1_0000_0000_0000_0000,
{
    if rtt_nanos == 0 {
        return 0;
    }
    let scaled: u128 = (acked as u128) * 1_000_000_000;
    let q: u128 = scaled / rtt_nanos;
    let r: u64 = q as u64;
    assert(r == q % 0x1_0000_0000_0000_0000) by (bit_vector)
        requires
            r == q as u64,
    ;
    r
}

/// Startup's plateau test, on (reached, count, last bandwidth): unless
/// already reached, a bandwidth at least 25% above the last one becomes the
/// new reference and resets the count; otherwise the count grows, and three
/// rounds without such growth mean the full bandwidth is reached.
pub open spec fn full_bw_after(reached: bool, count: u32, last_bw: u64, bw: u64) -> (bool, u32, u64) {
    if reached {
        (reached, count, last_bw)
    } else if bw >= last_bw + last_bw / 4 {
        (false, 0, bw)
    } else {
        ((count + 1) >= 3, (count + 1) as u32, last_bw)
    }
}

/// One plateau test of startup (see `full_bw_after`).
pub fn check_full_bw_reached(reached: bool, count: u32, last_bw: u64, bw: u64) -> (r: (bool, u32, u64))
    requires
        last_bw + last_bw / 4 <= u64::MAX,
        !reached ==> count < u32::MAX,
    ensures
        r == full_bw_after(reached, count, last_bw, bw),
{
    if reached {
        return (reached, count, last_bw);
    }
    if bw >= last_bw + last_bw / 4 {
        (false, 0, bw)
    } else {
        let c = count + 1;
        (c >= 3, c, last_bw)
    }
}

/// Whether more data may be sent: fewer bytes in flight than the window.
pub fn can_send(inflight: u64, cwnd: u64) -> (b: bool)
    ensures
        b == (inflight < cwnd),
{
    inflight < cwnd
}

/// Bytes to send per pacing interval: a millisecond at `pacing_rate`, at
/// least one segment.
pub fn send_quantum(pacing_rate: u64) -> (q: u64)
    ensures
        q == if pacing_rate / 1000 >= BBR_MSS_BYTES { pacing_rate / 1000 } else { BBR_MSS_BYTES },
{
    let per_ms = pacing_rate / 1000;
    if per_ms >= BBR_MSS_BYTES {
        per_ms
    } else {
        BBR_MSS_BYTES
    }
}

/// The state after a loss or ECN mark (`signal`): probing up turns into
/// draining down; every other state stays.
pub open spec fn state_after_congestion(s: BbrState, signal: bool) -> BbrState {
    if signal && s == BbrState::ProbeBw(ProbeBwPhase::Up) {
        BbrState::ProbeBw(ProbeBwPhase::Down)
    } else {
        s
    }
}

/// The state after a loss or ECN mark, and whether the pacing gain drops to
/// the draining gain.
pub fn on_congestion_signal(s: BbrState, signal: bool) -> (r: (BbrState, bool))
    ensures
        r.0 == state_after_congestion(s, signal),
        r.1 == (signal && s == BbrState::ProbeBw(ProbeBwPhase::Up)),
{
    if signal && s == BbrState::ProbeBw(ProbeBwPhase::Up) {
        (BbrState::ProbeBw(ProbeBwPhase::Down), true)
    } else {
        (s, false)
    }
}

} // verus!
