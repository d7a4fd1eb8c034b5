//! AMD FidelityFX Super Resolution (FSR) versions.
use vstd::prelude::*;

verus! {

/// FSR version.
#[derive(Debug, Clone, Copy, PartialEq, Eq, Structural)]
pub enum FsrVersion {
    /// FSR 1.0 (spatial upscaling).
    FSR1,
    /// FSR 2.0 (temporal upscaling).
    FSR2,
    /// FSR 3.0 (frame generation).
    FSR3,
}

} // verus!
