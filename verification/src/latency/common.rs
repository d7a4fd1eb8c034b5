//! Common latency reduction types.
use vstd::prelude::*;

verus! {

/// Latency reduction mode.
#[derive(Debug, Clone, Copy, PartialEq, Eq, Structural)]
pub enum LatencyMode {
    /// Disabled.
    Off,
    /// Enabled (standard latency reduction).
    On,
    /// Boost mode (maximum latency reduction).
    Boost,
}

/// Latency error types.
#[derive(Debug, Clone, Copy, PartialEq, Eq, Structural)]
pub enum LatencyError {
    /// Feature not supported.
    NotSupported,
    /// Initialization failed.
    InitializationFailed,
    /// Invalid mode.
    InvalidMode,
    /// Measurement failed.
    MeasurementFailed,
}

impl LatencyError {
    /// Human-readable description of the error.
    pub fn message(&self) -> (s: &'static str)
        ensures
            s@ == self.spec_message()@,
    {
        match self {
            LatencyError::NotSupported => "Feature not supported",
            LatencyError::InitializationFailed => "Initialization failed",
            LatencyError::InvalidMode => "Invalid mode",
            LatencyError::MeasurementFailed => "Measurement failed",
        }
    }

    /// The description that [`LatencyError::message`] returns.
    pub open spec fn spec_message(&self) -> &'static str {
        match self {
            LatencyError::NotSupported => "Feature not supported",
            LatencyError::InitializationFailed => "Initialization failed",
            LatencyError::InvalidMode => "Invalid mode",
            LatencyError::MeasurementFailed => "Measurement failed",
        }
    }
}

/// Latency marker for profiling.
#[derive(Debug, Clone, Copy, PartialEq, Eq, Structural)]
pub enum LatencyMarker {
    /// Simulation start.
    SimulationStart,
    /// Simulation end.
    SimulationEnd,
    /// Render submit start.
    RenderSubmitStart,
    /// Render submit end.
    RenderSubmitEnd,
    /// Present start.
    PresentStart,
    /// Present end.
    PresentEnd,
    /// Input sample.
    InputSample,
}

} // verus!
