[package]
name = "redox_drivers"
version = "0.1.0"
edition = "2021"
publish = false

[dependencies]
crossbeam-queue = "0.3"
num_cpus = "1"
log = "0.4"
spin = "0.9"
parking_lot = "0.12"
bitflags = "2"
anyhow = "1"
redox_syscall = "0.5"
