//! NVIDIA Deep Learning Super Sampling (DLSS) presets and support queries.
use vstd::prelude::*;
use crate::upscaling::common::UpscalingQuality;

verus! {

/// DLSS version.
#[derive(Debug, Clone, Copy, PartialEq, Eq, Structural)]
pub enum DlssVersion {
    /// DLSS 2.0.
    DLSS2,
    /// DLSS 3.0 (with frame generation).
    DLSS3,
}

/// DLSS preset.
#[derive(Debug, Clone, Copy, PartialEq, Eq, Structural)]
pub enum DlssPreset {
    /// Default preset.
    Default,
    /// Preset A (balanced).
    PresetA,
    /// Preset B (quality).
    PresetB,
    /// Preset C (performance).
    PresetC,
    /// Preset D (ultra performance).
    PresetD,
    /// Preset E (DLAA - Deep Learning Anti-Aliasing).
    PresetE,
    /// Preset F (ultra quality).
    PresetF,
}

/// The DLSS preset used for a quality level.
pub open spec fn spec_preset_for(quality: UpscalingQuality) -> DlssPreset {
    match quality {
        UpscalingQuality::UltraPerformance => DlssPreset::PresetD,
        UpscalingQuality::Performance => DlssPreset::PresetC,
        UpscalingQuality::Balanced => DlssPreset::PresetA,
        UpscalingQuality::Quality => DlssPreset::PresetB,
        UpscalingQuality::UltraQuality => DlssPreset::PresetF,
    }
}

impl DlssPreset {
    /// Convert a quality level to a DLSS preset.
    pub fn from_quality(quality: UpscalingQuality) -> (p: Self)
        ensures
            p == spec_preset_for(quality),
    {
        match quality {
            UpscalingQuality::UltraPerformance => DlssPreset::PresetD,
            UpscalingQuality::Performance => DlssPreset::PresetC,
            UpscalingQuality::Balanced => DlssPreset::PresetA,
            UpscalingQuality::Quality => DlssPreset::PresetB,
            UpscalingQuality::UltraQuality => DlssPreset::PresetF,
        }
    }
}

/// Quality recommended for a target frame rate: higher rates trade quality
/// for speed.
pub open spec fn spec_quality_for_fps(target_fps: u32) -> UpscalingQuality {
    if target_fps <= 60 {
        UpscalingQuality::Quality
    } else if target_fps <= 120 {
        UpscalingQuality::Balanced
    } else if target_fps <= 240 {
        UpscalingQuality::Performance
    } else {
        UpscalingQuality::UltraPerformance
    }
}

/// DLSS is available on every NVIDIA GPU with Tensor cores this driver serves.
pub fn is_supported() -> (b: bool)
    ensures
        b,
{
    true
}

/// DLSS 3 frame generation is reported available.
pub fn is_frame_generation_supported() -> (b: bool)
    ensures
        b,
{
    true
}

/// Get the recommended quality for a target frame rate.
pub fn recommended_quality_for_fps(target_fps: u32) -> (q: UpscalingQuality)
    ensures
        q == spec_quality_for_fps(target_fps),
{
    if target_fps <= 60 {
        UpscalingQuality::Quality
    } else if target_fps <= 120 {
        UpscalingQuality::Balanced
    } else if target_fps <= 240 {
        UpscalingQuality::Performance
    } else {
        UpscalingQuality::UltraPerformance
    }
}

} // verus!
