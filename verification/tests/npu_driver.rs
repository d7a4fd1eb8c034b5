use redox_drivers::npu::command::{Command, CommandStatus, CommandType};
use redox_drivers::npu::device::NpuConfig;
use redox_drivers::npu::memory::BufferUsage;
use redox_drivers::npu::{NpuDevice, NpuDriver};

#[test]
fn driver_registers_devices_with_increasing_ids() {
    let mut d: NpuDriver<u8> = NpuDriver::new();
    assert_eq!(d.list_devices(), Vec::<u32>::new());
    assert_eq!(d.register_device(7, NpuConfig::default()), 0);
    assert_eq!(d.register_device(9, NpuConfig::default()), 1);
    assert_eq!(d.list_devices(), vec![0, 1]);
    let dev = d.get_device(1).unwrap();
    assert_eq!(dev.id, 1);
    assert_eq!(dev.capabilities, 9);
    assert!(d.get_device(5).is_none());
}

#[test]
fn device_queues_commands_and_allocates_memory() {
    let config = NpuConfig { power_management: false, queue_depth: 8, memory_pool_mb: 1, perf_counters: false };
    let mut dev = NpuDevice::new(3, (), config);
    let a = dev.submit(Command::new(CommandType::Barrier));
    let b = dev.submit(Command::new(CommandType::Barrier).with_priority(2));
    assert_eq!((a, b), (1, 2));
    assert_eq!(dev.stats().commands_submitted, 2);
    assert_eq!(dev.wait(a), None);
    assert_eq!(dev.wait(99), Some(CommandStatus::Failed(1)));
    let buf = dev.alloc_buffer(1024, BufferUsage::ReadWrite).unwrap();
    assert_eq!(buf.size, 1024);
    assert_eq!(buf.usage, BufferUsage::ReadWrite);
    assert!(dev.alloc_buffer(1024 * 1024, BufferUsage::Scratch).is_none());
    dev.free_buffer(buf);
    assert!(dev.alloc_buffer(1024 * 1024, BufferUsage::Scratch).is_some());
}
