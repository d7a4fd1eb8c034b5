//! AMD Anti-Lag and Anti-Lag+: a context's version and mode, and support
//! queries. Latency figures stay with the caller.
use vstd::prelude::*;
use crate::latency::common::{LatencyError, LatencyMarker, LatencyMode};

verus! {

/// Anti-Lag version.
#[derive(Debug, Clone, Copy, PartialEq, Eq, Structural)]
pub enum AntiLagVersion {
    /// Anti-Lag (original).
    AntiLag,
    /// Anti-Lag+ (enhanced).
    AntiLagPlus,
}

/// Mode recommended for a target frame rate: standard latency reduction up
/// to 144 FPS, boost above.
pub open spec fn spec_recommended_mode(target_fps: u32) -> LatencyMode {
    if target_fps <= 144 {
        LatencyMode::On
    } else {
        LatencyMode::Boost
    }
}

/// Anti-Lag is available on every AMD GPU this driver serves.
pub fn is_supported() -> (b: bool)
    ensures
        b,
{
    true
}

/// Anti-Lag+ needs RDNA 3 or newer, which is not detected.
pub fn is_anti_lag_plus_supported() -> (b: bool)
    ensures
        !b,
{
    false
}

/// Get the recommended mode for a target frame rate.
pub fn recommended_mode(target_fps: u32) -> (m: LatencyMode)
    ensures
        m == spec_recommended_mode(target_fps),
{
    if target_fps <= 60 {
        LatencyMode::On
    } else if target_fps <= 144 {
        LatencyMode::On
    } else {
        LatencyMode::Boost
    }
}

/// An Anti-Lag context: its version and mode.
pub struct AntiLagContext {
    version: AntiLagVersion,
    mode: LatencyMode,
}

impl AntiLagContext {
    /// The version in use.
    pub closed spec fn version_spec(&self) -> AntiLagVersion {
        self.version
    }

    /// The current mode.
    pub closed spec fn mode_spec(&self) -> LatencyMode {
        self.mode
    }

    /// A context on every AMD GPU this driver serves: Anti-Lag+ where
    /// supported (it is not detected), else Anti-Lag; off.
    pub fn new() -> (r: Result<Self, LatencyError>)
        ensures
            r matches Ok(c) && c.version_spec() == AntiLagVersion::AntiLag && c.mode_spec() == LatencyMode::Off,
    {
        let version = if is_anti_lag_plus_supported() {
            AntiLagVersion::AntiLagPlus
        } else {
            AntiLagVersion::AntiLag
        };
        Ok(AntiLagContext { version, mode: LatencyMode::Off })
    }

    /// Sets the mode; boost without Anti-Lag+ runs as standard latency
    /// reduction, but the mode is kept as asked.
    pub fn set_mode(&mut self, mode: LatencyMode) -> (r: Result<(), LatencyError>)
        ensures
            r is Ok,
            final(self).mode_spec() == mode,
            final(self).version_spec() == old(self).version_spec(),
    {
        self.mode = mode;
        Ok(())
    }

    /// Marks a latency point; always accepted.
    pub fn mark(&mut self, marker: LatencyMarker) -> (r: Result<(), LatencyError>)
        ensures
            r is Ok,
            *final(self) == *old(self),
    {
        Ok(())
    }

    /// The version in use.
    pub fn version(&self) -> (v: AntiLagVersion)
        ensures
            v == self.version_spec(),
    {
        self.version
    }

    /// The current mode.
    pub fn mode(&self) -> (m: LatencyMode)
        ensures
            m == self.mode_spec(),
    {
        self.mode
    }
}

impl Default for AntiLagContext {
    /// As `new`, falling back to an idle context.
    fn default() -> (c: Self)
        ensures
            c.version_spec() == AntiLagVersion::AntiLag && c.mode_spec() == LatencyMode::Off,
    {
        match Self::new() {
            Ok(c) => c,
            Err(_) => AntiLagContext { version: AntiLagVersion::AntiLag, mode: LatencyMode::Off },
        }
    }
}

} // verus!
