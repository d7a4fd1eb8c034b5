pub mod errno;
pub mod elf_loader;
pub mod signal;
pub mod syscall_table;
pub mod process;
pub mod translator;
pub mod ipc;
pub mod server;
