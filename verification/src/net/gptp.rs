//! IEEE 802.1AS gPTP clock synchronisation from hardware timestamps.
use vstd::prelude::*;

verus! {

/// `a - b` saturated to the `i64` range.
pub open spec fn sat_sub_i64(a: i64, b: i64) -> i64 {
    if a - b > i64::MAX {
        i64::MAX
    } else if a - b < i64::MIN {
        i64::MIN
    } else {
        (a - b) as i64
    }
}

/// `a - b`, saturating at the bounds of `i64`.
pub fn saturating_sub_i64(a: i64, b: i64) -> (r: i64)
    ensures
        r == sat_sub_i64(a, b),
{
    match a.checked_sub(b) {
        Some(d) => d,
        None => if b < 0 {
            i64::MAX
        } else {
            i64::MIN
        },
    }
}

/// `x / 2` rounded toward zero.
pub open spec fn half_toward_zero(x: int) -> int {
    if x >= 0 {
        x / 2
    } else {
        -((-x) / 2)
    }
}

/// Path delay of the synchronisation model: half the sum of the two
/// one-way differences, rounded toward zero.
pub open spec fn gptp_delay(d21: i64, d43: i64) -> int {
    half_toward_zero(d43 + d21)
}

/// `x` saturated to the `i64` range.
pub open spec fn sat_i64(x: int) -> i64 {
    if x > i64::MAX {
        i64::MAX
    } else if x < i64::MIN {
        i64::MIN
    } else {
        x as i64
    }
}

/// gPTP clock synchroniser state.
pub struct GPtpClockSynchronizer {
    pub current_clock_offset_ns: i64,
    pub path_delay_ns: u64,
    pub total_sync_messages: u64,
}

impl GPtpClockSynchronizer {
    /// A synchroniser with no offset, no delay and no messages.
    pub fn new() -> (g: Self)
        ensures
            g.current_clock_offset_ns == 0,
            g.path_delay_ns == 0,
            g.total_sync_messages == 0,
    {
        GPtpClockSynchronizer { current_clock_offset_ns: 0, path_delay_ns: 0, total_sync_messages: 0 }
    }

    /// Computes path delay and clock offset from the timestamps `t1` (sync
    /// egress), `t2` (sync ingress), `t3` (delay request egress) and `t4`
    /// (delay request ingress): Delay = ((t4 - t3) + (t2 - t1)) / 2 and
    /// Offset = (t2 - t1) - Delay, each difference saturated to `i64`, the
    /// offset too. Stores both, counts the message and returns
    /// `(offset, delay)`; a negative delay is returned in two's complement.
    pub fn process_hardware_timestamps(&mut self, t1_ns: u64, t2_ns: u64, t3_ns: u64, t4_ns: u64) -> (r: (i64, u64))
        ensures
            ({
                let d21 = sat_sub_i64(t2_ns as i64, t1_ns as i64);
                let d43 = sat_sub_i64(t4_ns as i64, t3_ns as i64);
                let delay = gptp_delay(d21, d43);
                &&& r.1 == (delay as i64) as u64
                &&& r.0 == sat_i64(d21 - delay)
            }),
            final(self).path_delay_ns == r.1,
            final(self).current_clock_offset_ns == r.0,
            final(self).total_sync_messages == old(self).total_sync_messages.wrapping_add(1),
    {
        let diff21 = saturating_sub_i64(t2_ns as i64, t1_ns as i64);
        let diff43 = saturating_sub_i64(t4_ns as i64, t3_ns as i64);
        let sum: i128 = diff43 as i128 + diff21 as i128;
        let half: i128 = if sum >= 0 { sum / 2 } else { -((-sum) / 2) };
        let delay_signed: i64 = half as i64;
        let off: i128 = diff21 as i128 - half;
        let offset: i64 = if off > i64::MAX as i128 {
            i64::MAX
        } else if off < i64::MIN as i128 {
            i64::MIN
        } else {
            off as i64
        };
        let delay = delay_signed as u64;
        self.path_delay_ns = delay;
        self.current_clock_offset_ns = offset;
        self.total_sync_messages = self.total_sync_messages.wrapping_add(1);
        (offset, delay)
    }
}

} // verus!
