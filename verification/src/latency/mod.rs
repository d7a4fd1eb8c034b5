pub mod common;
pub mod frame_pacing;
pub mod anti_lag;
pub mod reflex;
pub mod boost;
pub mod subsystem;

pub use common::{LatencyError, LatencyMode, LatencyMarker};
pub use frame_pacing::FramePacer;
pub use subsystem::init;
