//! The integer part of the BBRv3 controller: the path model (windowed
//! bandwidth and RTT estimates), round counting, the ProbeRTT timer and the
//! ProbeBW cycle. The gains it multiplies by stay with the caller.
use vstd::prelude::*;
use super::bbr::{drop_expired, drop_superseded, WindowedFilter, BBR_MIN_CWND_PACKETS};

verus! {

/// Bandwidth filter window: 10 seconds.
pub const BBR_BW_WINDOW_US: u64 = 10_000_000;

/// Minimum RTT probe interval (5 seconds); also the RTT filter window.
pub const BBR_PROBE_RTT_INTERVAL_US: u64 = 5_000_000;

/// Duration of the ProbeRTT state (200 ms).
pub const BBR_PROBE_RTT_DURATION_US: u64 = 200_000;

/// Number of phases of the ProbeBW gain cycle.
pub const BBR_PROBE_BW_PHASES: usize = 8;

/// Rounds without 25% bandwidth growth after which startup ends.
pub const BBR_STARTUP_FULL_BW_ROUNDS: u32 = 3;

/// The samples a windowed filter holds after `update(now, value)`.
pub open spec fn filtered(s: Seq<(u64, u64)>, window: u64, now: u64, value: u64, is_max: bool) -> Seq<(u64, u64)> {
    drop_superseded(drop_expired(s, now.saturating_sub(window)), value, is_max).push((now, value))
}

/// A bandwidth sample in bytes per second: `bytes` over `rtt_us`
/// microseconds, cut to 64 bits.
pub open spec fn bw_sample(bytes: u64, rtt_us: u64) -> u64 {
    ((bytes * 1_000_000) / (rtt_us as int)) as u64
}

/// The path model: windowed maximum bandwidth and windowed minimum RTT.
pub struct BbrPath {
    /// Maximum bandwidth filter.
    pub bw_filter: WindowedFilter,
    /// Current bandwidth estimate (bytes/sec).
    pub btl_bw: u64,
    /// Minimum RTT filter.
    pub rtt_filter: WindowedFilter,
    /// Minimum RTT estimate in microseconds (`u64::MAX` while unknown).
    pub min_rtt_us: u64,
    /// When the minimum RTT was last lowered or reprobed.
    pub min_rtt_stamp_us: u64,
}

impl BbrPath {
    /// The model's invariant: a well-formed max filter of bandwidth over 10
    /// seconds and a well-formed min filter of RTT over 5 seconds.
    pub open spec fn wf(&self) -> bool {
        &&& self.bw_filter.wf()
        &&& self.rtt_filter.wf()
        &&& self.bw_filter.max_filter()
        &&& !self.rtt_filter.max_filter()
        &&& self.bw_filter.window() == BBR_BW_WINDOW_US
        &&& self.rtt_filter.window() == BBR_PROBE_RTT_INTERVAL_US
    }

    /// A model that has seen nothing: no bandwidth, RTT unknown.
    pub fn new() -> (p: Self)
        ensures
            p.wf(),
            p.bw_filter.samples_seq().len() == 0,
            p.rtt_filter.samples_seq().len() == 0,
            p.btl_bw == 0,
            p.min_rtt_us == u64::MAX,
            p.min_rtt_stamp_us == 0,
    {
        BbrPath {
            bw_filter: WindowedFilter::new(BBR_BW_WINDOW_US, true),
            btl_bw: 0,
            rtt_filter: WindowedFilter::new(BBR_PROBE_RTT_INTERVAL_US, false),
            min_rtt_us: u64::MAX,
            min_rtt_stamp_us: 0,
        }
    }

    /// Feeds an ACK of `bytes_acked` bytes with RTT `rtt_us` at `now_us`:
    /// a nonzero RTT enters the RTT filter, and the minimum RTT follows the
    /// filter down (or is first set), stamped now; with bytes acked too, the
    /// bandwidth sample enters the bandwidth filter and the estimate becomes
    /// the filter's maximum.
    pub fn update_model(&mut self, now_us: u64, rtt_us: u64, bytes_acked: u64)
        requires
            old(self).wf(),
        ensures
            final(self).wf(),
            final(self).min_rtt_us <= old(self).min_rtt_us,
            rtt_us == 0 ==> *final(self) == *old(self),
            rtt_us > 0 ==> {
                let rs = filtered(old(self).rtt_filter.samples_seq(), BBR_PROBE_RTT_INTERVAL_US, now_us, rtt_us, false);
                let m = rs[0].1;
                let lower = m < old(self).min_rtt_us || old(self).min_rtt_us == u64::MAX;
                &&& final(self).rtt_filter.samples_seq() == rs
                &&& final(self).min_rtt_us == if lower { m } else { old(self).min_rtt_us }
                &&& final(self).min_rtt_stamp_us == if lower { now_us } else { old(self).min_rtt_stamp_us }
            },
            rtt_us > 0 && bytes_acked > 0 ==> {
                let bs = filtered(
                    old(self).bw_filter.samples_seq(),
                    BBR_BW_WINDOW_US,
                    now_us,
                    bw_sample(bytes_acked, rtt_us),
                    true,
                );
                &&& final(self).bw_filter.samples_seq() == bs
                &&& final(self).btl_bw == bs[0].1
            },
            rtt_us > 0 && bytes_acked == 0 ==> final(self).bw_filter == old(self).bw_filter
                && final(self).btl_bw == old(self).btl_bw,
    {
        if rtt_us > 0 {
            self.rtt_filter.update(now_us, rtt_us);
            if let Some(min_rtt) = self.rtt_filter.get() {
                if min_rtt < self.min_rtt_us || self.min_rtt_us == u64::MAX {
                    self.min_rtt_us = min_rtt;
                    self.min_rtt_stamp_us = now_us;
                }
            }
        }
        if rtt_us > 0 && bytes_acked > 0 {
            assert(bytes_acked * 1_000_000 <= u128::MAX) by (nonlinear_arith)
                requires
                    bytes_acked <= u64::MAX,
            ;
            let bw = (bytes_acked as u128 * 1_000_000 / rtt_us as u128) as u64;
            self.bw_filter.update(now_us, bw);
            if let Some(max_bw) = self.bw_filter.get() {
                self.btl_bw = max_bw;
            }
        }
    }

    /// The minimum RTT reported outside: 0 while unknown.
    pub fn min_rtt_us(&self) -> (r: u64)
        ensures
            r == if self.min_rtt_us == u64::MAX { 0 } else { self.min_rtt_us },
    {
        if self.min_rtt_us == u64::MAX {
            0
        } else {
            self.min_rtt_us
        }
    }
}

/// Round counting: once delivery reaches the round's mark, a new round
/// starts and the mark moves to what has been delivered. The answer is the
/// new mark, round count and whether a round started.
pub fn update_round(delivered: u64, next_round_delivered: u64, round_count: u64) -> (r: (u64, u64, bool))
    requires
        delivered >= next_round_delivered ==> round_count < u64::MAX,
    ensures
        delivered >= next_round_delivered ==> r == (delivered, (round_count + 1) as u64, true),
        delivered < next_round_delivered ==> r == (next_round_delivered, round_count, false),
{
    if delivered >= next_round_delivered {
        (delivered, round_count + 1, true)
    } else {
        (next_round_delivered, round_count, false)
    }
}

/// Whether ProbeRTT is due: outside it, when the minimum RTT was last
/// stamped more than the probe interval ago.
pub fn probe_rtt_due(in_probe_rtt: bool, now_us: u64, min_rtt_stamp_us: u64) -> (b: bool)
    ensures
        b == (!in_probe_rtt && now_us.saturating_sub(min_rtt_stamp_us) > BBR_PROBE_RTT_INTERVAL_US),
{
    !in_probe_rtt && now_us.saturating_sub(min_rtt_stamp_us) > BBR_PROBE_RTT_INTERVAL_US
}

/// The ProbeRTT timer: whether it runs (and until when) and whether a round
/// has passed since it started.
#[derive(Debug, Clone, Copy, PartialEq, Eq, Structural)]
pub struct ProbeRttTimer {
    /// When ProbeRTT may end, once started.
    pub done_stamp_us: Option<u64>,
    /// Whether a round started while the timer ran.
    pub round_done: bool,
}

/// One ProbeRTT step: the timer starts (for 200 ms) once inflight is down
/// to the minimum window; while it runs a round start is noted; the answer
/// is the new timer and whether ProbeRTT is over (time is up and a round
/// passed).
pub open spec fn probe_rtt_after(t: ProbeRttTimer, inflight: u64, mss: u64, now_us: u64, round_start: bool) -> (ProbeRttTimer, bool) {
    let t1 = if t.done_stamp_us is None && inflight <= BBR_MIN_CWND_PACKETS * mss {
        ProbeRttTimer { done_stamp_us: Some((now_us + BBR_PROBE_RTT_DURATION_US) as u64), round_done: false }
    } else {
        t
    };
    match t1.done_stamp_us {
        Some(done) => {
            let rd = t1.round_done || round_start;
            (ProbeRttTimer { done_stamp_us: t1.done_stamp_us, round_done: rd }, now_us >= done && rd)
        },
        None => (t1, false),
    }
}

impl ProbeRttTimer {
    /// A timer that has not started.
    pub fn new() -> (t: Self)
        ensures
            t.done_stamp_us is None,
            !t.round_done,
    {
        ProbeRttTimer { done_stamp_us: None, round_done: false }
    }

    /// One ProbeRTT step (see `probe_rtt_after`); the answer is whether
    /// ProbeRTT is over.
    pub fn step(&mut self, inflight: u64, mss: u64, now_us: u64, round_start: bool) -> (over: bool)
        requires
            BBR_MIN_CWND_PACKETS * mss <= u64::MAX,
            now_us + BBR_PROBE_RTT_DURATION_US <= u64::MAX,
        ensures
            (*final(self), over) == probe_rtt_after(*old(self), inflight, mss, now_us, round_start),
    {
        if self.done_stamp_us.is_none() {
            let target_inflight = BBR_MIN_CWND_PACKETS * mss;
            if inflight <= target_inflight {
                self.done_stamp_us = Some(now_us + BBR_PROBE_RTT_DURATION_US);
                self.round_done = false;
            }
        }
        match self.done_stamp_us {
            Some(done) => {
                if round_start {
                    self.round_done = true;
                }
                now_us >= done && self.round_done
            },
            None => false,
        }
    }
}

/// The next phase of the ProbeBW gain cycle.
pub fn next_cycle_index(idx: usize) -> (n: usize)
    requires
        idx < BBR_PROBE_BW_PHASES,
    ensures
        n == (idx + 1) % (BBR_PROBE_BW_PHASES as int),
        n < BBR_PROBE_BW_PHASES,
{
    (idx + 1) % BBR_PROBE_BW_PHASES
}

/// Startup's plateau test on a round start: a bandwidth estimate at the
/// growth target becomes the new reference and clears the count; otherwise
/// the count grows and reaching three rounds means full bandwidth. Nothing
/// changes once reached or between round starts. The answer is (reached,
/// count, reference).
pub open spec fn startup_full_bw_after(
    reached: bool,
    round_start: bool,
    btl_bw: u64,
    growth_target: u64,
    cnt: u32,
    full_bw: u64,
) -> (bool, u32, u64) {
    if reached || !round_start {
        (reached, cnt, full_bw)
    } else if btl_bw >= growth_target {
        (reached, 0, btl_bw)
    } else {
        ((cnt + 1) >= BBR_STARTUP_FULL_BW_ROUNDS, (cnt + 1) as u32, full_bw)
    }
}

/// Startup's plateau test (see `startup_full_bw_after`); the growth target
/// is the reference bandwidth scaled by the growth threshold.
pub fn check_startup_full_bw(
    reached: bool,
    round_start: bool,
    btl_bw: u64,
    growth_target: u64,
    cnt: u32,
    full_bw: u64,
) -> (r: (bool, u32, u64))
    requires
        !reached && round_start && btl_bw < growth_target ==> cnt < u32::MAX,
    ensures
        r == startup_full_bw_after(reached, round_start, btl_bw, growth_target, cnt, full_bw),
{
    if reached || !round_start {
        return (reached, cnt, full_bw);
    }
    if btl_bw >= growth_target {
        return (reached, 0, btl_bw);
    }
    let c = cnt + 1;
    (c >= BBR_STARTUP_FULL_BW_ROUNDS, c, full_bw)
}

/// The window restored on leaving ProbeRTT: the larger of the current one
/// and the one saved on entry.
pub fn restored_cwnd(cwnd: u64, prior_cwnd: u64) -> (c: u64)
    ensures
        c == if cwnd >= prior_cwnd { cwnd } else { prior_cwnd },
{
    if cwnd >= prior_cwnd {
        cwnd
    } else {
        prior_cwnd
    }
}

} // verus!
