//! Frame pacing and synchronization.
use vstd::prelude::*;
use crate::latency::common::LatencyError;

verus! {

/// Frame pacing strategy.
#[derive(Debug, Clone, Copy, PartialEq, Eq, Structural)]
pub enum PacingStrategy {
    /// VSync (wait for vertical blank).
    VSync,
    /// Immediate (no waiting).
    Immediate,
    /// Adaptive (dynamic based on load).
    Adaptive,
    /// Mailbox (replace queued frame).
    Mailbox,
}

/// Frame time in microseconds for a frame rate (integer division, as the
/// pacer stores it).
pub open spec fn frame_time_for_fps(fps: u32) -> u64
    recommends
        fps > 0,
{
    (1_000_000u64 / (fps as u64)) as u64
}

/// Frame pacer.
pub struct FramePacer {
    strategy: PacingStrategy,
    target_frame_time_us: u64,
    max_flip_queue_depth: u32,
    current_frame_time_us: u64,
    frame_count: u64,
}

impl FramePacer {
    /// The pacing strategy in use.
    pub closed spec fn strategy_spec(&self) -> PacingStrategy {
        self.strategy
    }

    /// Target frame time in microseconds.
    pub closed spec fn target_frame_time_spec(&self) -> u64 {
        self.target_frame_time_us
    }

    /// Maximum flip queue depth.
    pub closed spec fn max_flip_queue_depth_spec(&self) -> u32 {
        self.max_flip_queue_depth
    }

    /// Duration of the last completed frame in microseconds.
    pub closed spec fn current_frame_time_spec(&self) -> u64 {
        self.current_frame_time_us
    }

    /// Number of frames begun so far.
    pub closed spec fn frame_count_spec(&self) -> u64 {
        self.frame_count
    }

    /// Create a new frame pacer for a target frame rate.
    pub fn new(strategy: PacingStrategy, target_fps: u32) -> (p: Self)
        requires
            target_fps > 0,
        ensures
            p.strategy_spec() == strategy,
            p.target_frame_time_spec() == frame_time_for_fps(target_fps),
            p.max_flip_queue_depth_spec() == 1,
            p.current_frame_time_spec() == 0,
            p.frame_count_spec() == 0,
    {
        let target_frame_time_us = 1_000_000u64 / (target_fps as u64);
        FramePacer {
            strategy,
            target_frame_time_us,
            max_flip_queue_depth: 1,
            current_frame_time_us: 0,
            frame_count: 0,
        }
    }

    /// Set the pacing strategy.
    pub fn set_strategy(&mut self, strategy: PacingStrategy)
        ensures
            final(self).strategy_spec() == strategy,
            final(self).target_frame_time_spec() == old(self).target_frame_time_spec(),
            final(self).max_flip_queue_depth_spec() == old(self).max_flip_queue_depth_spec(),
            final(self).current_frame_time_spec() == old(self).current_frame_time_spec(),
            final(self).frame_count_spec() == old(self).frame_count_spec(),
    {
        self.strategy = strategy;
    }

    /// Set the target frame rate.
    pub fn set_target_fps(&mut self, fps: u32)
        requires
            fps > 0,
        ensures
            final(self).target_frame_time_spec() == frame_time_for_fps(fps),
            final(self).strategy_spec() == old(self).strategy_spec(),
            final(self).max_flip_queue_depth_spec() == old(self).max_flip_queue_depth_spec(),
            final(self).current_frame_time_spec() == old(self).current_frame_time_spec(),
            final(self).frame_count_spec() == old(self).frame_count_spec(),
    {
        self.target_frame_time_us = 1_000_000u64 / (fps as u64);
    }

    /// Set the maximum flip queue depth.
    pub fn set_max_flip_queue_depth(&mut self, depth: u32)
        ensures
            final(self).max_flip_queue_depth_spec() == depth,
            final(self).strategy_spec() == old(self).strategy_spec(),
            final(self).target_frame_time_spec() == old(self).target_frame_time_spec(),
            final(self).current_frame_time_spec() == old(self).current_frame_time_spec(),
            final(self).frame_count_spec() == old(self).frame_count_spec(),
    {
        self.max_flip_queue_depth = depth;
    }

    /// Begin a frame: the frame counter advances by one.
    pub fn begin_frame(&mut self) -> (r: Result<(), LatencyError>)
        requires
            old(self).frame_count_spec() < u64::MAX,
        ensures
            r is Ok,
            final(self).frame_count_spec() == old(self).frame_count_spec() + 1,
            final(self).strategy_spec() == old(self).strategy_spec(),
            final(self).target_frame_time_spec() == old(self).target_frame_time_spec(),
            final(self).max_flip_queue_depth_spec() == old(self).max_flip_queue_depth_spec(),
            final(self).current_frame_time_spec() == old(self).current_frame_time_spec(),
    {
        self.frame_count = self.frame_count + 1;
        Ok(())
    }

    /// End a frame, recording how long it took.
    pub fn end_frame(&mut self, frame_time_us: u64) -> (r: Result<(), LatencyError>)
        ensures
            r is Ok,
            final(self).current_frame_time_spec() == frame_time_us,
            final(self).strategy_spec() == old(self).strategy_spec(),
            final(self).target_frame_time_spec() == old(self).target_frame_time_spec(),
            final(self).max_flip_queue_depth_spec() == old(self).max_flip_queue_depth_spec(),
            final(self).frame_count_spec() == old(self).frame_count_spec(),
    {
        self.current_frame_time_us = frame_time_us;
        Ok(())
    }

    /// Time still to wait before presenting under adaptive pacing: the part
    /// of the target frame time that the last frame did not use (zero when
    /// the strategy is not adaptive or the frame took at least the target).
    pub fn adaptive_wait_us(&self) -> (w: u64)
        ensures
            w == (if self.strategy_spec() == PacingStrategy::Adaptive
                && self.current_frame_time_spec() < self.target_frame_time_spec() {
                (self.target_frame_time_spec() - self.current_frame_time_spec()) as u64
            } else {
                0
            }),
    {
        if self.strategy == PacingStrategy::Adaptive
            && self.current_frame_time_us < self.target_frame_time_us {
            self.target_frame_time_us - self.current_frame_time_us
        } else {
            0
        }
    }

    /// Duration of the last completed frame in microseconds.
    pub fn current_frame_time_us(&self) -> (t: u64)
        ensures
            t == self.current_frame_time_spec(),
    {
        self.current_frame_time_us
    }

    /// Number of frames begun so far.
    pub fn frame_count(&self) -> (n: u64)
        ensures
            n == self.frame_count_spec(),
    {
        self.frame_count
    }
}

/// VSync mode.
#[derive(Debug, Clone, Copy, PartialEq, Eq, Structural)]
pub enum VSyncMode {
    /// VSync off.
    Off,
    /// VSync on.
    On,
    /// Adaptive VSync (disable when below target FPS).
    Adaptive,
    /// Fast VSync (tear when above target FPS).
    Fast,
}

} // verus!
