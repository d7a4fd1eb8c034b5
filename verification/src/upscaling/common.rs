//! Common upscaling types.
use vstd::prelude::*;

verus! {

/// Upscaling backend.
#[derive(Debug, Clone, Copy, PartialEq, Eq, Structural)]
pub enum UpscalingBackend {
    /// AMD FidelityFX Super Resolution.
    FSR,
    /// NVIDIA Deep Learning Super Sampling.
    DLSS,
    /// Intel Xe Super Sampling.
    XeSS,
}

/// Display name of a backend.
pub open spec fn spec_backend_name(b: UpscalingBackend) -> &'static str {
    match b {
        UpscalingBackend::FSR => "AMD FSR",
        UpscalingBackend::DLSS => "NVIDIA DLSS",
        UpscalingBackend::XeSS => "Intel XeSS",
    }
}

impl UpscalingBackend {
    /// Display name of the backend.
    pub fn name(&self) -> (s: &'static str)
        ensures
            s@ == spec_backend_name(*self)@,
    {
        match self {
            UpscalingBackend::FSR => "AMD FSR",
            UpscalingBackend::DLSS => "NVIDIA DLSS",
            UpscalingBackend::XeSS => "Intel XeSS",
        }
    }
}

/// Upscaling quality preset.
#[derive(Debug, Clone, Copy, PartialEq, Eq, Structural)]
pub enum UpscalingQuality {
    /// Ultra Performance (3x upscale).
    UltraPerformance,
    /// Performance (2x upscale).
    Performance,
    /// Balanced (1.7x upscale).
    Balanced,
    /// Quality (1.5x upscale).
    Quality,
    /// Ultra Quality (1.3x upscale).
    UltraQuality,
}

/// Display name of a quality preset.
pub open spec fn spec_quality_name(q: UpscalingQuality) -> &'static str {
    match q {
        UpscalingQuality::UltraPerformance => "Ultra Performance",
        UpscalingQuality::Performance => "Performance",
        UpscalingQuality::Balanced => "Balanced",
        UpscalingQuality::Quality => "Quality",
        UpscalingQuality::UltraQuality => "Ultra Quality",
    }
}

impl UpscalingQuality {
    /// Display name of the preset.
    pub fn name(&self) -> (s: &'static str)
        ensures
            s@ == spec_quality_name(*self)@,
    {
        match self {
            UpscalingQuality::UltraPerformance => "Ultra Performance",
            UpscalingQuality::Performance => "Performance",
            UpscalingQuality::Balanced => "Balanced",
            UpscalingQuality::Quality => "Quality",
            UpscalingQuality::UltraQuality => "Ultra Quality",
        }
    }
}

/// Upscaling error types.
#[derive(Debug, Clone, PartialEq, Eq)]
pub enum UpscalingError {
    /// Backend not available.
    BackendNotAvailable,
    /// Initialization failed.
    InitializationFailed(String),
    /// Invalid parameters.
    InvalidParameters,
    /// Resource creation failed.
    ResourceCreationFailed(String),
    /// Upscaling failed.
    UpscalingFailed(String),
}

} // verus!
