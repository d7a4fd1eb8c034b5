//! NVIDIA Reflex: modes, the frame counter of a context and support
//! queries. Latency figures stay with the caller.
use vstd::prelude::*;
use crate::latency::common::{LatencyError, LatencyMarker, LatencyMode};

verus! {

/// Reflex mode.
#[derive(Debug, Clone, Copy, PartialEq, Eq, Structural)]
pub enum ReflexMode {
    /// Disabled.
    Off,
    /// Low Latency mode.
    LowLatency,
    /// Low Latency + Boost.
    LowLatencyBoost,
}

/// The Reflex mode that corresponds to a generic latency mode.
pub open spec fn spec_reflex_mode_of(mode: LatencyMode) -> ReflexMode {
    match mode {
        LatencyMode::Off => ReflexMode::Off,
        LatencyMode::On => ReflexMode::LowLatency,
        LatencyMode::Boost => ReflexMode::LowLatencyBoost,
    }
}

impl From<LatencyMode> for ReflexMode {
    fn from(mode: LatencyMode) -> (r: ReflexMode) {
        match mode {
            LatencyMode::Off => ReflexMode::Off,
            LatencyMode::On => ReflexMode::LowLatency,
            LatencyMode::Boost => ReflexMode::LowLatencyBoost,
        }
    }
}

impl vstd::std_specs::convert::FromSpecImpl<LatencyMode> for ReflexMode {
    open spec fn obeys_from_spec() -> bool {
        true
    }

    open spec fn from_spec(mode: LatencyMode) -> ReflexMode {
        spec_reflex_mode_of(mode)
    }
}

/// Reflex is available on every NVIDIA GPU this driver serves.
pub fn is_supported() -> (b: bool)
    ensures
        b,
{
    true
}

/// The Flash Indicator needs a compatible monitor, which is not detected.
pub fn is_flash_indicator_supported() -> (b: bool)
    ensures
        !b,
{
    false
}

/// Recommended mode for competitive gaming.
pub fn recommended_competitive_mode() -> (m: ReflexMode)
    ensures
        m == ReflexMode::LowLatencyBoost,
{
    ReflexMode::LowLatencyBoost
}

/// A Reflex context: its mode and the id of the last frame begun.
pub struct ReflexContext {
    mode: ReflexMode,
    frame_id: u64,
}

impl ReflexContext {
    /// The current mode.
    pub closed spec fn mode_spec(&self) -> ReflexMode {
        self.mode
    }

    /// The id of the last frame begun (0 before any).
    pub closed spec fn frame_id_spec(&self) -> u64 {
        self.frame_id
    }

    /// A context on every NVIDIA GPU this driver serves: off, no frame yet.
    pub fn new() -> (r: Result<Self, LatencyError>)
        ensures
            r matches Ok(c) && c.mode_spec() == ReflexMode::Off && c.frame_id_spec() == 0,
    {
        Ok(ReflexContext { mode: ReflexMode::Off, frame_id: 0 })
    }

    /// Sets the mode.
    pub fn set_mode(&mut self, mode: ReflexMode) -> (r: Result<(), LatencyError>)
        ensures
            r is Ok,
            final(self).mode_spec() == mode,
            final(self).frame_id_spec() == old(self).frame_id_spec(),
    {
        self.mode = mode;
        Ok(())
    }

    /// The current mode.
    pub fn mode(&self) -> (m: ReflexMode)
        ensures
            m == self.mode_spec(),
    {
        self.mode
    }

    /// The id of the last frame begun.
    pub fn frame_id(&self) -> (n: u64)
        ensures
            n == self.frame_id_spec(),
    {
        self.frame_id
    }

    /// Begins a frame: while on, the frame id advances; the answer is the
    /// current frame id.
    pub fn begin_frame(&mut self) -> (r: Result<u64, LatencyError>)
        requires
            old(self).mode_spec() != ReflexMode::Off ==> old(self).frame_id_spec() < u64::MAX,
        ensures
            final(self).mode_spec() == old(self).mode_spec(),
            old(self).mode_spec() == ReflexMode::Off ==> final(self).frame_id_spec() == old(self).frame_id_spec(),
            old(self).mode_spec() != ReflexMode::Off ==> final(self).frame_id_spec() == old(self).frame_id_spec() + 1,
            r == Ok::<u64, LatencyError>(final(self).frame_id_spec()),
    {
        if self.mode == ReflexMode::Off {
            return Ok(self.frame_id);
        }
        self.frame_id = self.frame_id + 1;
        Ok(self.frame_id)
    }

    /// Marks a latency point of frame `frame_id`; always accepted.
    pub fn mark(&mut self, marker: LatencyMarker, frame_id: u64) -> (r: Result<(), LatencyError>)
        ensures
            r is Ok,
            *final(self) == *old(self),
    {
        Ok(())
    }

    /// Sleeps until render; nothing to wait for here, always accepted.
    pub fn sleep(&self) -> (r: Result<(), LatencyError>)
        ensures
            r is Ok,
    {
        Ok(())
    }
}

impl Default for ReflexContext {
    /// As `new`, falling back to an idle context.
    fn default() -> (c: Self)
        ensures
            c.mode_spec() == ReflexMode::Off && c.frame_id_spec() == 0,
    {
        match Self::new() {
            Ok(c) => c,
            Err(_) => ReflexContext { mode: ReflexMode::Off, frame_id: 0 },
        }
    }
}

} // verus!
