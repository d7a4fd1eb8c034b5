//! NVMe per-core run queues and the NVMe-oF target.
pub mod nvmeof;
pub mod ring;
pub mod runqueue;
