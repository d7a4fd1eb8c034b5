//! Latency boost mode (generic optimizations).
use vstd::prelude::*;
use crate::latency::common::{LatencyError, LatencyMode};

verus! {

/// Boost context.
pub struct BoostContext {
    mode: LatencyMode,
    cpu_priority_boost: bool,
    gpu_clock_boost: bool,
}

impl BoostContext {
    /// Current mode.
    pub closed spec fn mode_spec(&self) -> LatencyMode {
        self.mode
    }

    /// Whether the CPU priority boost is on.
    pub closed spec fn cpu_boost_spec(&self) -> bool {
        self.cpu_priority_boost
    }

    /// Whether the GPU clock boost is on.
    pub closed spec fn gpu_boost_spec(&self) -> bool {
        self.gpu_clock_boost
    }

    /// Create a boost context: mode off, no boost.
    pub fn new() -> (r: Result<Self, LatencyError>)
        ensures
            r matches Ok(c) && c.mode_spec() == LatencyMode::Off && !c.cpu_boost_spec()
                && !c.gpu_boost_spec(),
    {
        Ok(BoostContext { mode: LatencyMode::Off, cpu_priority_boost: false, gpu_clock_boost: false })
    }

    /// Set the boost mode: `Off` turns both boosts off, `On` turns on the CPU
    /// priority boost only, `Boost` turns on both.
    pub fn set_mode(&mut self, mode: LatencyMode) -> (r: Result<(), LatencyError>)
        ensures
            r is Ok,
            final(self).mode_spec() == mode,
            final(self).cpu_boost_spec() == (mode != LatencyMode::Off),
            final(self).gpu_boost_spec() == (mode == LatencyMode::Boost),
    {
        self.mode = mode;
        match mode {
            LatencyMode::Off => {
                self.cpu_priority_boost = false;
                self.gpu_clock_boost = false;
            },
            LatencyMode::On => {
                self.cpu_priority_boost = true;
                self.gpu_clock_boost = false;
            },
            LatencyMode::Boost => {
                self.cpu_priority_boost = true;
                self.gpu_clock_boost = true;
            },
        }
        Ok(())
    }

    /// Enable or disable the CPU priority boost.
    pub fn set_cpu_priority_boost(&mut self, enabled: bool)
        ensures
            final(self).cpu_boost_spec() == enabled,
            final(self).mode_spec() == old(self).mode_spec(),
            final(self).gpu_boost_spec() == old(self).gpu_boost_spec(),
    {
        self.cpu_priority_boost = enabled;
    }

    /// Enable or disable the GPU clock boost.
    pub fn set_gpu_clock_boost(&mut self, enabled: bool)
        ensures
            final(self).gpu_boost_spec() == enabled,
            final(self).mode_spec() == old(self).mode_spec(),
            final(self).cpu_boost_spec() == old(self).cpu_boost_spec(),
    {
        self.gpu_clock_boost = enabled;
    }

    /// Whether the CPU priority boost is on.
    pub fn cpu_priority_boost(&self) -> (b: bool)
        ensures
            b == self.cpu_boost_spec(),
    {
        self.cpu_priority_boost
    }

    /// Whether the GPU clock boost is on.
    pub fn gpu_clock_boost(&self) -> (b: bool)
        ensures
            b == self.gpu_boost_spec(),
    {
        self.gpu_clock_boost
    }
}

impl Default for BoostContext {
    fn default() -> (c: Self)
        ensures
            c.mode_spec() == LatencyMode::Off && !c.cpu_boost_spec() && !c.gpu_boost_spec(),
    {
        BoostContext { mode: LatencyMode::Off, cpu_priority_boost: false, gpu_clock_boost: false }
    }
}

} // verus!
