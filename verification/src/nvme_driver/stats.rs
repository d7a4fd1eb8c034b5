//! Performance counters: I/O counts and bytes, latency extremes and a
//! latency histogram with its percentiles, queue depth, errors and
//! batches; and a tracker of latency samples with their percentiles.
//!
//! Latencies are counted in nanoseconds. Rates per second, which divide by
//! elapsed clock time in floating point, are left to the caller.
use vstd::prelude::*;
use std::time::Duration;
use super::time::{duration_nanos, nanos_of, since_epoch, system_now};

verus! {

broadcast use {vstd::seq_lib::group_to_multiset_ensures, vstd::multiset::group_multiset_axioms};

/// The number of latency histogram buckets.
pub const LATENCY_BUCKET_COUNT: usize = 16;

/// The upper bound, in nanoseconds, of latency bucket `i`: 1 µs doubling
/// up to 512 µs, then 1 ms doubling up to 16 ms, then everything else.
pub open spec fn bucket_bound(i: int) -> u64 {
    if i < 10 {
        (1000 * vstd::arithmetic::power2::pow2(i as nat)) as u64
    } else if i < 15 {
        (1_000_000 * vstd::arithmetic::power2::pow2((i - 10) as nat)) as u64
    } else {
        u64::MAX
    }
}

/// The upper bound, in nanoseconds, of latency bucket `i`.
pub fn latency_bucket_bound(i: usize) -> (b: u64)
    requires
        i < LATENCY_BUCKET_COUNT,
    ensures
        b == bucket_bound(i as int),
{
    proof {
        vstd::arithmetic::power2::lemma2_to64();
    }
    match i {
        0 => 1_000,
        1 => 2_000,
        2 => 4_000,
        3 => 8_000,
        4 => 16_000,
        5 => 32_000,
        6 => 64_000,
        7 => 128_000,
        8 => 256_000,
        9 => 512_000,
        10 => 1_000_000,
        11 => 2_000_000,
        12 => 4_000_000,
        13 => 8_000_000,
        14 => 16_000_000,
        _ => u64::MAX,
    }
}

/// Every bucket bound is above zero and they grow.
proof fn lemma_bucket_bounds(i: int)
    requires
        0 <= i < 16,
    ensures
        bucket_bound(i) > 0,
        i < 15 ==> bucket_bound(i) < bucket_bound(i + 1),
{
    vstd::arithmetic::power2::lemma2_to64();
}

/// The bucket a latency falls in: the first whose bound it does not pass.
pub open spec fn bucket_of(latency_ns: u64) -> int
    decreases 16int,
{
    first_bucket_from(latency_ns, 0)
}

/// The first bucket from `i` on whose bound `latency_ns` does not pass.
pub open spec fn first_bucket_from(latency_ns: u64, i: int) -> int
    decreases 16 - i,
{
    if i >= 15 || latency_ns <= bucket_bound(i) {
        if i >= 15 { 15 } else { i }
    } else {
        first_bucket_from(latency_ns, i + 1)
    }
}

/// The sum of the first `k` counts of a histogram.
pub open spec fn prefix_count(h: Seq<u64>, k: int) -> int
    decreases k,
{
    if k <= 0 {
        0
    } else {
        prefix_count(h, k - 1) + h[k - 1]
    }
}

/// The bound of the first bucket from `i` on at which the cumulative count
/// reaches `threshold`; 0 if none does.
pub open spec fn percentile_from(h: Seq<u64>, threshold: int, i: int) -> u64
    decreases 16 - i,
{
    if i >= 16 {
        0
    } else if prefix_count(h, i + 1) >= threshold {
        bucket_bound(i)
    } else {
        percentile_from(h, threshold, i + 1)
    }
}

/// The p50, p99 and p99.9 latency bounds of a histogram: for each, the
/// bound of the first bucket where the cumulative count reaches half,
/// 99/100 and 999/1000 of the total (rounded down); all 0 when empty.
pub open spec fn histogram_percentiles(h: Seq<u64>) -> (u64, u64, u64) {
    let total = prefix_count(h, 16);
    if total == 0 {
        (0, 0, 0)
    } else {
        (
            percentile_from(h, total / 2, 0),
            percentile_from(h, (total * 99) / 100, 0),
            percentile_from(h, (total * 999) / 1000, 0),
        )
    }
}

/// Latency figures of the counters.
#[derive(Debug, Clone, Copy, PartialEq, Eq, Structural)]
pub struct LatencyReport {
    pub avg_latency_ns: u64,
    pub min_latency_ns: u64,
    pub max_latency_ns: u64,
    pub p50_latency_ns: u64,
    pub p99_latency_ns: u64,
    pub p999_latency_ns: u64,
    pub total_commands: u64,
    pub total_bytes: u64,
    pub current_queue_depth: u32,
    pub max_queue_depth: u32,
    pub errors: u64,
    pub timeouts: u64,
}

/// Performance statistics collector (counters wrap).
pub struct PerformanceStats {
    pub read_ops: u64,
    pub write_ops: u64,
    pub read_bytes: u64,
    pub write_bytes: u64,
    pub total_latency_ns: u64,
    pub min_latency_ns: u64,
    pub max_latency_ns: u64,
    pub latency_histogram: [u64; 16],
    pub current_queue_depth: u32,
    pub max_queue_depth: u32,
    pub errors: u64,
    pub timeouts: u64,
    pub batch_count: u64,
    pub batch_total_size: u64,
    pub batch_latency_ns: u64,
}

/// Counters as a fresh collector has them: all 0 but the minimum latency,
/// which starts at `u64::MAX`.
pub open spec fn fresh_stats(s: PerformanceStats) -> bool {
    &&& s.read_ops == 0
    &&& s.write_ops == 0
    &&& s.read_bytes == 0
    &&& s.write_bytes == 0
    &&& s.total_latency_ns == 0
    &&& s.min_latency_ns == u64::MAX
    &&& s.max_latency_ns == 0
    &&& s.latency_histogram@ == Seq::new(16, |i: int| 0u64)
    &&& s.current_queue_depth == 0
    &&& s.max_queue_depth == 0
    &&& s.errors == 0
    &&& s.timeouts == 0
    &&& s.batch_count == 0
    &&& s.batch_total_size == 0
    &&& s.batch_latency_ns == 0
}

impl PerformanceStats {
    /// A fresh collector.
    pub fn new() -> (s: Self)
        ensures
            fresh_stats(s),
    {
        let s = PerformanceStats {
            read_ops: 0,
            write_ops: 0,
            read_bytes: 0,
            write_bytes: 0,
            total_latency_ns: 0,
            min_latency_ns: u64::MAX,
            max_latency_ns: 0,
            latency_histogram: [0u64; 16],
            current_queue_depth: 0,
            max_queue_depth: 0,
            errors: 0,
            timeouts: 0,
            batch_count: 0,
            batch_total_size: 0,
            batch_latency_ns: 0,
        };
        assert(s.latency_histogram@ =~= Seq::new(16, |i: int| 0u64));
        s
    }

    /// Counts the bytes of a submitted I/O and one more in flight, raising
    /// the deepest queue depth seen.
    pub fn record_io_submit(&mut self, bytes: usize, is_write: bool)
        ensures
            ({
                let o = *old(self);
                let depth = o.current_queue_depth.wrapping_add(1);
                &&& final(self).write_bytes == if is_write { o.write_bytes.wrapping_add(bytes as u64) } else { o.write_bytes }
                &&& final(self).read_bytes == if is_write { o.read_bytes } else { o.read_bytes.wrapping_add(bytes as u64) }
                &&& final(self).current_queue_depth == depth
                &&& final(self).max_queue_depth == if depth > o.max_queue_depth { depth } else { o.max_queue_depth }
                &&& *final(self) == (PerformanceStats {
                    write_bytes: final(self).write_bytes,
                    read_bytes: final(self).read_bytes,
                    current_queue_depth: depth,
                    max_queue_depth: final(self).max_queue_depth,
                    ..o
                })
            }),
    {
        if is_write {
            self.write_bytes = self.write_bytes.wrapping_add(bytes as u64);
        } else {
            self.read_bytes = self.read_bytes.wrapping_add(bytes as u64);
        }
        self.current_queue_depth = self.current_queue_depth.wrapping_add(1);
        let depth = self.current_queue_depth;
        if depth > self.max_queue_depth {
            self.max_queue_depth = depth;
        }
    }

    /// Counts a finished I/O with its latency in nanoseconds: the
    /// operation, the total, the extremes, its histogram bucket, and one
    /// less in flight.
    pub fn record_io_complete_ns(&mut self, bytes: usize, is_write: bool, latency_ns: u64)
        ensures
            ({
                let o = *old(self);
                let b = bucket_of(latency_ns);
                &&& final(self).write_ops == if is_write { o.write_ops.wrapping_add(1) } else { o.write_ops }
                &&& final(self).read_ops == if is_write { o.read_ops } else { o.read_ops.wrapping_add(1) }
                &&& final(self).total_latency_ns == o.total_latency_ns.wrapping_add(latency_ns)
                &&& final(self).min_latency_ns == if latency_ns < o.min_latency_ns { latency_ns } else { o.min_latency_ns }
                &&& final(self).max_latency_ns == if latency_ns > o.max_latency_ns { latency_ns } else { o.max_latency_ns }
                &&& final(self).latency_histogram@ == o.latency_histogram@.update(b, o.latency_histogram@[b].wrapping_add(1))
                &&& final(self).current_queue_depth == o.current_queue_depth.wrapping_sub(1)
                &&& *final(self) == (PerformanceStats {
                    write_ops: final(self).write_ops,
                    read_ops: final(self).read_ops,
                    total_latency_ns: final(self).total_latency_ns,
                    min_latency_ns: final(self).min_latency_ns,
                    max_latency_ns: final(self).max_latency_ns,
                    latency_histogram: final(self).latency_histogram,
                    current_queue_depth: final(self).current_queue_depth,
                    ..o
                })
            }),
    {
        if is_write {
            self.write_ops = self.write_ops.wrapping_add(1);
        } else {
            self.read_ops = self.read_ops.wrapping_add(1);
        }
        self.total_latency_ns = self.total_latency_ns.wrapping_add(latency_ns);
        if latency_ns < self.min_latency_ns {
            self.min_latency_ns = latency_ns;
        }
        if latency_ns > self.max_latency_ns {
            self.max_latency_ns = latency_ns;
        }
        let mut i: usize = 0;
        while i < 15 && latency_ns > latency_bucket_bound(i)
            invariant
                0 <= i <= 15,
                first_bucket_from(latency_ns, 0) == first_bucket_from(latency_ns, i as int),
            decreases 15 - i,
        {
            i = i + 1;
        }
        proof {
            if i < 15 {
                assert(latency_ns <= bucket_bound(i as int));
            }
        }
        let count = self.latency_histogram[i];
        self.latency_histogram[i] = count.wrapping_add(1);
        self.current_queue_depth = self.current_queue_depth.wrapping_sub(1);
    }

    /// Counts a finished I/O with its latency (see `record_io_complete_ns`;
    /// the latency is taken in nanoseconds, cut to 64 bits).
    pub fn record_io_complete(&mut self, bytes: usize, is_write: bool, latency: Duration)
        ensures
            ({
                let ns_of_latency = nanos_of(latency) as u64;
                let o = *old(self);
                let b = bucket_of(ns_of_latency);
                &&& final(self).write_ops == if is_write { o.write_ops.wrapping_add(1) } else { o.write_ops }
                &&& final(self).read_ops == if is_write { o.read_ops } else { o.read_ops.wrapping_add(1) }
                &&& final(self).total_latency_ns == o.total_latency_ns.wrapping_add(ns_of_latency)
                &&& final(self).min_latency_ns == if ns_of_latency < o.min_latency_ns { ns_of_latency } else { o.min_latency_ns }
                &&& final(self).max_latency_ns == if ns_of_latency > o.max_latency_ns { ns_of_latency } else { o.max_latency_ns }
                &&& final(self).latency_histogram@ == o.latency_histogram@.update(b, o.latency_histogram@[b].wrapping_add(1))
                &&& final(self).current_queue_depth == o.current_queue_depth.wrapping_sub(1)
                &&& *final(self) == (PerformanceStats {
                    write_ops: final(self).write_ops,
                    read_ops: final(self).read_ops,
                    total_latency_ns: final(self).total_latency_ns,
                    min_latency_ns: final(self).min_latency_ns,
                    max_latency_ns: final(self).max_latency_ns,
                    latency_histogram: final(self).latency_histogram,
                    current_queue_depth: final(self).current_queue_depth,
                    ..o
                })
            }),
    {
        let ns = duration_nanos(latency) as u64;
        self.record_io_complete_ns(bytes, is_write, ns);
    }

    /// Counts a processed batch of `count` items and its latency in
    /// nanoseconds.
    pub fn record_batch_ns(&mut self, count: usize, latency_ns: u64)
        ensures
            *final(self) == (PerformanceStats {
                batch_count: old(self).batch_count.wrapping_add(1),
                batch_total_size: old(self).batch_total_size.wrapping_add(count as u64),
                batch_latency_ns: old(self).batch_latency_ns.wrapping_add(latency_ns),
                ..*old(self)
            }),
    {
        self.batch_count = self.batch_count.wrapping_add(1);
        self.batch_total_size = self.batch_total_size.wrapping_add(count as u64);
        self.batch_latency_ns = self.batch_latency_ns.wrapping_add(latency_ns);
    }

    /// Counts a processed batch and its latency (in nanoseconds, cut to 64
    /// bits).
    pub fn record_batch(&mut self, count: usize, latency: Duration)
        ensures
            *final(self) == (PerformanceStats {
                batch_count: old(self).batch_count.wrapping_add(1),
                batch_total_size: old(self).batch_total_size.wrapping_add(count as u64),
                batch_latency_ns: old(self).batch_latency_ns.wrapping_add(nanos_of(latency) as u64),
                ..*old(self)
            }),
    {
        let ns = duration_nanos(latency) as u64;
        self.record_batch_ns(count, ns);
    }

    /// Counts a batch of completions (as `record_batch`).
    pub fn record_completions(&mut self, count: usize, latency: Duration)
        ensures
            *final(self) == (PerformanceStats {
                batch_count: old(self).batch_count.wrapping_add(1),
                batch_total_size: old(self).batch_total_size.wrapping_add(count as u64),
                batch_latency_ns: old(self).batch_latency_ns.wrapping_add(nanos_of(latency) as u64),
                ..*old(self)
            }),
    {
        self.record_batch(count, latency);
    }

    /// Counts an error.
    pub fn record_error(&mut self)
        ensures
            *final(self) == (PerformanceStats { errors: old(self).errors.wrapping_add(1), ..*old(self) }),
    {
        self.errors = self.errors.wrapping_add(1);
    }

    /// Counts a timeout, and one less in flight.
    pub fn record_timeout(&mut self)
        ensures
            *final(self) == (PerformanceStats {
                timeouts: old(self).timeouts.wrapping_add(1),
                current_queue_depth: old(self).current_queue_depth.wrapping_sub(1),
                ..*old(self)
            }),
    {
        self.timeouts = self.timeouts.wrapping_add(1);
        self.current_queue_depth = self.current_queue_depth.wrapping_sub(1);
    }

    /// The p50, p99 and p99.9 bounds of the latency histogram (see
    /// `histogram_percentiles`).
    pub fn calculate_percentiles(&self) -> (p: (u64, u64, u64))
        requires
            prefix_count(self.latency_histogram@, 16) * 999 <= u64::MAX,
        ensures
            p == histogram_percentiles(self.latency_histogram@),
    {
        let ghost h = self.latency_histogram@;
        let mut total: u64 = 0;
        let mut k: usize = 0;
        while k < 16
            invariant
                0 <= k <= 16,
                h == self.latency_histogram@,
                h.len() == 16,
                prefix_count(h, 16) * 999 <= u64::MAX,
                total == prefix_count(h, k as int),
            decreases 16 - k,
        {
            proof {
                lemma_prefix_count_mono(h, k as int + 1, 16);
            }
            total = total + self.latency_histogram[k];
            k = k + 1;
        }
        if total == 0 {
            return (0, 0, 0);
        }
        let t50 = total / 2;
        let t99 = (total * 99) / 100;
        let t999 = (total * 999) / 1000;
        assert(t50 <= t99 <= t999 <= total) by (nonlinear_arith)
            requires
                t50 == total / 2,
                total > 0,
                t99 == (total * 99) / 100,
                t999 == (total * 999) / 1000,
                total >= 1,
        ;
        let mut cumulative: u64 = 0;
        let mut p50: u64 = 0;
        let mut p99: u64 = 0;
        let mut p999: u64 = 0;
        let mut i: usize = 0;
        while i < 16
            invariant
                0 <= i <= 16,
                h == self.latency_histogram@,
                h.len() == 16,
                total == prefix_count(h, 16),
                prefix_count(h, 16) * 999 <= u64::MAX,
                cumulative == prefix_count(h, i as int),
                t50 <= t99 <= t999 <= total,
                t50 == total / 2,
                total > 0,
                t99 == (total * 99) / 100,
                t999 == (total * 999) / 1000,
                p999 == 0,
                p50 == 0 ==> percentile_from(h, t50 as int, 0) == percentile_from(h, t50 as int, i as int),
                p50 != 0 ==> p50 == percentile_from(h, t50 as int, 0),
                p99 == 0 ==> percentile_from(h, t99 as int, 0) == percentile_from(h, t99 as int, i as int),
                p99 != 0 ==> p99 == percentile_from(h, t99 as int, 0),
                percentile_from(h, t999 as int, 0) == percentile_from(h, t999 as int, i as int),
                i > 0 && p50 == 0 ==> cumulative < t50,
                i > 0 && p99 == 0 ==> cumulative < t99,
                cumulative < t999 || i == 0,
            decreases 16 - i,
        {
            proof {
                lemma_prefix_count_mono(h, i as int + 1, 16);
                lemma_bucket_bounds(i as int);
            }
            let ghost p50_before = p50;
            let ghost p99_before = p99;
            cumulative = cumulative + self.latency_histogram[i];
            assert(cumulative == prefix_count(h, i as int + 1));
            let bound = latency_bucket_bound(i);
            if p50 == 0 && cumulative >= t50 {
                p50 = bound;
            }
            if p99 == 0 && cumulative >= t99 {
                p99 = bound;
            }
            if cumulative >= t999 {
                p999 = bound;
                proof {
                    assert(percentile_from(h, t999 as int, i as int) == bound);
                    if p50_before == 0 {
                        assert(percentile_from(h, t50 as int, i as int) == bound);
                    }
                    if p99_before == 0 {
                        assert(percentile_from(h, t99 as int, i as int) == bound);
                    }
                }
                return (p50, p99, p999);
            }
            i = i + 1;
        }
        proof {
            assert(cumulative == total);
            assert(false);
        }
        (p50, p99, p999)
    }

    /// The latency figures: the average over the operations counted (0
    /// with none), the minimum (0 when nothing was counted), the maximum,
    /// the histogram percentiles, and the totals.
    pub fn latency_report(&self) -> (r: LatencyReport)
        requires
            self.read_ops + self.write_ops <= u64::MAX,
            self.read_bytes + self.write_bytes <= u64::MAX,
            prefix_count(self.latency_histogram@, 16) * 999 <= u64::MAX,
        ensures
            ({
                let total_ops = self.read_ops + self.write_ops;
                let (p50, p99, p999) = histogram_percentiles(self.latency_histogram@);
                r == (LatencyReport {
                    avg_latency_ns: if total_ops > 0 { (self.total_latency_ns / total_ops as u64) as u64 } else { 0 },
                    min_latency_ns: if self.min_latency_ns == u64::MAX { 0 } else { self.min_latency_ns },
                    max_latency_ns: self.max_latency_ns,
                    p50_latency_ns: p50,
                    p99_latency_ns: p99,
                    p999_latency_ns: p999,
                    total_commands: total_ops as u64,
                    total_bytes: (self.read_bytes + self.write_bytes) as u64,
                    current_queue_depth: self.current_queue_depth,
                    max_queue_depth: self.max_queue_depth,
                    errors: self.errors,
                    timeouts: self.timeouts,
                })
            }),
    {
        let total_ops = self.read_ops + self.write_ops;
        let (p50, p99, p999) = self.calculate_percentiles();
        LatencyReport {
            avg_latency_ns: if total_ops > 0 { self.total_latency_ns / total_ops } else { 0 },
            min_latency_ns: if self.min_latency_ns == u64::MAX { 0 } else { self.min_latency_ns },
            max_latency_ns: self.max_latency_ns,
            p50_latency_ns: p50,
            p99_latency_ns: p99,
            p999_latency_ns: p999,
            total_commands: total_ops,
            total_bytes: self.read_bytes + self.write_bytes,
            current_queue_depth: self.current_queue_depth,
            max_queue_depth: self.max_queue_depth,
            errors: self.errors,
            timeouts: self.timeouts,
        }
    }

    /// Resets the operation, byte, latency, error and timeout counters and
    /// the histogram; queue depths and batch counters are kept.
    pub fn reset(&mut self)
        ensures
            final(self).read_ops == 0,
            final(self).write_ops == 0,
            final(self).read_bytes == 0,
            final(self).write_bytes == 0,
            final(self).total_latency_ns == 0,
            final(self).min_latency_ns == u64::MAX,
            final(self).max_latency_ns == 0,
            final(self).errors == 0,
            final(self).timeouts == 0,
            final(self).latency_histogram@ == Seq::new(16, |i: int| 0u64),
            final(self).current_queue_depth == old(self).current_queue_depth,
            final(self).max_queue_depth == old(self).max_queue_depth,
            final(self).batch_count == old(self).batch_count,
            final(self).batch_total_size == old(self).batch_total_size,
            final(self).batch_latency_ns == old(self).batch_latency_ns,
    {
        self.read_ops = 0;
        self.write_ops = 0;
        self.read_bytes = 0;
        self.write_bytes = 0;
        self.total_latency_ns = 0;
        self.min_latency_ns = u64::MAX;
        self.max_latency_ns = 0;
        self.errors = 0;
        self.timeouts = 0;
        self.latency_histogram = [0u64; 16];
        assert(self.latency_histogram@ =~= Seq::new(16, |i: int| 0u64));
    }
}

/// Prefix counts grow with the prefix.
proof fn lemma_prefix_count_mono(h: Seq<u64>, a: int, b: int)
    requires
        0 <= a <= b,
    ensures
        prefix_count(h, a) <= prefix_count(h, b),
    decreases b - a,
{
    if a < b {
        lemma_prefix_count_mono(h, a, b - 1);
    }
}

/// Latency percentiles of the recorded samples, in nanoseconds.
#[derive(Debug, Clone, Copy, PartialEq, Eq, Structural)]
pub struct LatencyPercentiles {
    pub min: u64,
    pub max: u64,
    pub avg: u64,
    pub p50: u64,
    pub p90: u64,
    pub p99: u64,
    pub p999: u64,
}

impl Default for LatencyPercentiles {
    fn default() -> (p: Self)
        ensures
            p == (LatencyPercentiles { min: 0, max: 0, avg: 0, p50: 0, p90: 0, p99: 0, p999: 0 }),
    {
        LatencyPercentiles { min: 0, max: 0, avg: 0, p50: 0, p90: 0, p99: 0, p999: 0 }
    }
}

/// Whether `s` is in ascending order.
pub open spec fn ascending(s: Seq<u64>) -> bool {
    forall|i: int, j: int| 0 <= i <= j < s.len() ==> s[i] <= s[j]
}

/// The sum of `s`.
pub open spec fn seq_sum(s: Seq<u64>) -> int
    decreases s.len(),
{
    if s.len() == 0 {
        0
    } else {
        seq_sum(s.drop_last()) + s.last()
    }
}

/// The percentiles of samples sorted ascending: the ends, the average
/// (rounded down), and the samples at `len/2`, `len*90/100`, `len*99/100`
/// and `len*999/1000`.
pub open spec fn percentiles_of(s: Seq<u64>) -> LatencyPercentiles {
    let len = s.len() as int;
    LatencyPercentiles {
        min: s[0],
        max: s[len - 1],
        avg: (seq_sum(s) / len) as u64,
        p50: s[len / 2],
        p90: s[(len * 90) / 100],
        p99: s[(len * 99) / 100],
        p999: s[(len * 999) / 1000],
    }
}

/// Sorts samples ascending (by insertion).
fn sort_samples(v: Vec<u64>) -> (r: Vec<u64>)
    ensures
        ascending(r@),
        r@.to_multiset() == v@.to_multiset(),
{
    let ghost input = v@;
    let mut src = v;
    let mut out: Vec<u64> = Vec::new();
    while src.len() > 0
        invariant
            ascending(out@),
            out@.to_multiset().add(src@.to_multiset()) == input.to_multiset(),
        decreases src@.len(),
    {
        let ghost before = src@;
        let x = src.pop().unwrap();
        proof {
            assert(before == src@.push(x));
        }
        let mut pos: usize = 0;
        while pos < out.len() && out[pos] <= x
            invariant
                0 <= pos <= out@.len(),
                forall|j: int| 0 <= j < pos ==> out@[j] <= x,
            decreases out@.len() - pos,
        {
            pos = pos + 1;
        }
        let ghost o = out@;
        out.insert(pos, x);
        proof {
            assert(out@ == o.insert(pos as int, x));
            assert(out@.to_multiset() =~= o.to_multiset().insert(x)) by {
                vstd::seq_lib::to_multiset_insert(o, pos as int, x);
            }
            assert(out@.to_multiset().add(src@.to_multiset()) =~= input.to_multiset());
            assert forall|i: int, j: int| 0 <= i <= j < out@.len() implies out@[i] <= out@[j] by {
                if pos < o.len() {
                    assert(!(o[pos as int] <= x) || pos == o.len());
                }
            }
        }
    }
    out
}

/// A bounded set of latency samples, in nanoseconds.
pub struct LatencyTracker {
    samples: Vec<u64>,
    max_samples: usize,
}

impl LatencyTracker {
    /// The samples kept.
    pub closed spec fn samples_spec(&self) -> Seq<u64> {
        self.samples@
    }

    /// The most samples kept.
    pub closed spec fn capacity(&self) -> usize {
        self.max_samples
    }

    /// An empty tracker keeping at most `max_samples`.
    pub fn new(max_samples: usize) -> (t: Self)
        ensures
            t.samples_spec().len() == 0,
            t.capacity() == max_samples,
    {
        LatencyTracker { samples: Vec::new(), max_samples }
    }

    /// Records a sample; when full, it replaces the sample at `random`
    /// modulo the number kept.
    pub fn record_at(&mut self, latency_ns: u64, random: usize)
        requires
            old(self).samples_spec().len() <= old(self).capacity(),
            old(self).capacity() > 0,
        ensures
            final(self).samples_spec().len() <= final(self).capacity(),
            final(self).capacity() == old(self).capacity(),
            old(self).samples_spec().len() < old(self).capacity() ==> final(self).samples_spec()
                == old(self).samples_spec().push(latency_ns),
            old(self).samples_spec().len() >= old(self).capacity() ==> final(self).samples_spec()
                == old(self).samples_spec().update(
                    (random as int) % (old(self).samples_spec().len() as int),
                    latency_ns,
                ),
    {
        if self.samples.len() < self.max_samples {
            self.samples.push(latency_ns);
        } else {
            let idx = random % self.samples.len();
            self.samples.set(idx, latency_ns);
        }
    }

    /// Records a sample; when full, it replaces one picked by the
    /// nanoseconds of the wall clock since the Unix epoch (the first for a
    /// clock set before it).
    pub fn record(&mut self, latency_ns: u64)
        requires
            old(self).samples_spec().len() <= old(self).capacity(),
            old(self).capacity() > 0,
        ensures
            final(self).samples_spec().len() <= final(self).capacity(),
            final(self).capacity() == old(self).capacity(),
            old(self).samples_spec().len() < old(self).capacity() ==> final(self).samples_spec()
                == old(self).samples_spec().push(latency_ns),
            old(self).samples_spec().len() >= old(self).capacity() ==> exists|i: int|
                0 <= i < old(self).samples_spec().len() && final(self).samples_spec()
                    == old(self).samples_spec().update(i, latency_ns),
    {
        let random = match since_epoch(system_now()) {
            Some(d) => duration_nanos(d) as usize,
            None => 0,
        };
        self.record_at(latency_ns, random);
    }

    /// The percentiles of the samples (see `percentiles_of`, over the
    /// samples sorted); all 0 with no samples.
    pub fn percentiles(&self) -> (p: LatencyPercentiles)
        requires
            seq_sum(self.samples_spec()) <= u64::MAX,
            self.samples_spec().len() * 999 <= usize::MAX,
        ensures
            self.samples_spec().len() == 0 ==> p == LatencyPercentiles::default_spec(),
            self.samples_spec().len() > 0 ==> exists|s: Seq<u64>|
                ascending(s) && s.to_multiset() == self.samples_spec().to_multiset() && p == percentiles_of(s),
    {
        if self.samples.len() == 0 {
            return LatencyPercentiles::default();
        }
        let copy = self.samples.clone();
        let sorted = sort_samples(copy);
        let len = sorted.len();
        proof {
            assert(sorted@.len() == self.samples@.len()) by {
                assert(sorted@.to_multiset().len() == self.samples@.to_multiset().len());
            }
            lemma_sum_permutation(sorted@, self.samples@);
        }
        let mut sum: u64 = 0;
        let mut i: usize = 0;
        while i < len
            invariant
                len == sorted@.len(),
                0 <= i <= len,
                seq_sum(sorted@) <= u64::MAX,
                sum == seq_sum(sorted@.take(i as int)),
            decreases len - i,
        {
            proof {
                assert(sorted@.take(i as int + 1).drop_last() =~= sorted@.take(i as int));
                lemma_seq_sum_prefix(sorted@, i as int + 1);
            }
            sum = sum + sorted[i];
            i = i + 1;
        }
        assert(sorted@.take(len as int) =~= sorted@);
        let p999_idx = (len * 999) / 1000;
        assert((len * 90) / 100 < len && (len * 99) / 100 < len && (len * 999) / 1000 < len && len / 2 < len) by (nonlinear_arith)
            requires
                len >= 1,
        ;
        LatencyPercentiles {
            min: sorted[0],
            max: sorted[len - 1],
            avg: sum / (len as u64),
            p50: sorted[len / 2],
            p90: sorted[(len * 90) / 100],
            p99: sorted[(len * 99) / 100],
            p999: if p999_idx < len { sorted[p999_idx] } else { sorted[len - 1] },
        }
    }
}

impl LatencyPercentiles {
    /// All percentiles 0.
    pub open spec fn default_spec() -> LatencyPercentiles {
        LatencyPercentiles { min: 0, max: 0, avg: 0, p50: 0, p90: 0, p99: 0, p999: 0 }
    }
}

/// A prefix sums to no more than the whole.
proof fn lemma_seq_sum_prefix(s: Seq<u64>, k: int)
    requires
        0 <= k <= s.len(),
    ensures
        0 <= seq_sum(s.take(k)) <= seq_sum(s),
    decreases s.len() - k,
{
    if k < s.len() {
        lemma_seq_sum_prefix(s, k + 1);
        assert(s.take(k + 1).drop_last() =~= s.take(k));
    } else {
        assert(s.take(k) =~= s);
    }
    lemma_seq_sum_nonneg(s.take(k));
}

/// Sums of naturals are not negative.
proof fn lemma_seq_sum_nonneg(s: Seq<u64>)
    ensures
        seq_sum(s) >= 0,
    decreases s.len(),
{
    if s.len() > 0 {
        lemma_seq_sum_nonneg(s.drop_last());
    }
}

/// Sequences holding the same samples have the same sum.
proof fn lemma_sum_permutation(a: Seq<u64>, b: Seq<u64>)
    requires
        a.to_multiset() == b.to_multiset(),
    ensures
        seq_sum(a) == seq_sum(b),
    decreases a.len(),
{
    if a.len() == 0 {
        assert(b.to_multiset().len() == 0);
        assert(b.len() == 0);
    } else {
        let x = a.last();
        assert(a.to_multiset().count(x) > 0) by {
            assert(a.contains(x)) by {
                assert(a[a.len() - 1] == x);
            }
        }
        assert(b.contains(x));
        let j = choose|j: int| 0 <= j < b.len() && b[j] == x;
        let b2 = b.remove(j);
        assert(a.drop_last().to_multiset() =~= b2.to_multiset()) by {
            assert(a =~= a.drop_last().push(x));
            vstd::seq_lib::to_multiset_remove(b, j);
        }
        lemma_sum_permutation(a.drop_last(), b2);
        lemma_sum_remove(b, j);
    }
}

/// Removing an element takes it off the sum.
proof fn lemma_sum_remove(s: Seq<u64>, j: int)
    requires
        0 <= j < s.len(),
    ensures
        seq_sum(s.remove(j)) + s[j] == seq_sum(s),
    decreases s.len(),
{
    if j == s.len() - 1 {
        assert(s.remove(j) =~= s.drop_last());
    } else {
        lemma_sum_remove(s.drop_last(), j);
        assert(s.remove(j).drop_last() =~= s.drop_last().remove(j));
        assert(s.remove(j).last() == s.last());
    }
}

} // verus!
