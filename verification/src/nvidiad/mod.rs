pub mod ttm;
pub mod device;
