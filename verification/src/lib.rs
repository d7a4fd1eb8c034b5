//! Verified core logic of a set of Redox OS drivers and services: GPU memory
//! and partition management, latency and upscaling policy, the Vulkan loader
//! registry, a Linux compatibility layer (ELF parsing, signals, pipes), network
//! helpers, an NPU command queue and NVMe request scheduling.
pub mod latency;
pub mod lcs;
pub mod inteld;
pub mod net;
pub mod npu;
pub mod nvidiad;
pub mod nvme_core;
pub mod nvme_driver;
pub mod touch;
pub mod upscaling;
pub mod vulkan;
