//! NVMe driver core: I/O scheduling, request merging, queue ring
//! arithmetic and statistics, configuration and namespace bookkeeping.
pub mod config;
pub mod io_scheduler;
pub mod queue;
pub mod scheme;
pub mod stats;
pub mod time;
