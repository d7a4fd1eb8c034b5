//! Network helpers: BBRv3 metrics and filters, ECN extraction, IPv6
//! link-local addresses, gPTP, BLE mesh relaying, NAT and the fast path.
pub mod bbr;
pub mod bbr_model;
pub mod ble_mesh;
pub mod ecn;
pub mod ping;
pub mod gptp;
pub mod ipv6;
pub mod nat_table;
pub mod ring;
pub mod scheme;
pub mod virtio_bbr;
pub mod xdp;
