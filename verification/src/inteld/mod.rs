pub mod mmio;
pub mod context;
pub mod partition;
pub mod gal_backend;
pub mod gem;
pub mod device;
pub mod execbuf;
