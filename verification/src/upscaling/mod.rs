pub mod common;
pub mod dlss;
pub mod fsr;
pub mod xess;
pub mod subsystem;

pub use common::{UpscalingBackend, UpscalingError, UpscalingQuality};
pub use subsystem::{detect_backends, init};
