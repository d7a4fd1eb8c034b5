//! Initialization and backend discovery of the upscaling subsystem.
use vstd::prelude::*;
use crate::upscaling::common::UpscalingBackend;

verus! {

/// Initialize the upscaling subsystem; every backend of this crate (FSR,
/// DLSS, XeSS) is built in, so initialization cannot fail.
pub fn init() -> (r: Result<(), &'static str>)
    ensures
        r is Ok,
{
    Ok(())
}

/// The available upscaling backends, in order of preference: FSR, DLSS, XeSS.
pub fn detect_backends() -> (v: Vec<UpscalingBackend>)
    ensures
        v@ == seq![UpscalingBackend::FSR, UpscalingBackend::DLSS, UpscalingBackend::XeSS],
{
    let mut backends: Vec<UpscalingBackend> = Vec::new();
    backends.push(UpscalingBackend::FSR);
    backends.push(UpscalingBackend::DLSS);
    backends.push(UpscalingBackend::XeSS);
    assert(backends@ =~= seq![UpscalingBackend::FSR, UpscalingBackend::DLSS, UpscalingBackend::XeSS]);
    backends
}

} // verus!
