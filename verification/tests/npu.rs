use redox_drivers::npu::command::{ActivationFunc, Command, CommandQueue, CommandStatus, CommandType};
use redox_drivers::npu::device::{NpuConfig, NpuMemoryPool, NpuStats};
use redox_drivers::npu::memory::{BufferUsage, NpuBuffer};
use redox_drivers::npu::shapes::{image_nchw, image_nhwc, matrix, scalar, vector};
use redox_drivers::npu::tensor::{DataType, TensorDesc};

#[test]
fn data_type_sizes_and_names() {
    assert_eq!(DataType::Float32.size(), 4);
    assert_eq!(DataType::BFloat16.size(), 2);
    assert_eq!(DataType::Bool.size(), 1);
    assert_eq!(DataType::UInt8.name(), "uint8");
    assert_eq!(DataType::Float16.name(), "float16");
}

#[test]
fn tensor_strides_and_sizes() {
    let t = TensorDesc::new(DataType::Float32, vec![2, 3, 4]);
    assert_eq!(t.strides, vec![12, 4, 1]);
    assert_eq!(t.size_bytes, 96);
    assert_eq!(t.ndim(), 3);
    assert_eq!(t.numel(), 24);
    let s = scalar(DataType::Int8);
    assert_eq!(s.ndim(), 1);
    assert_eq!(s.shape, vec![1]);
    assert_eq!(s.numel(), 1);
    assert_eq!(s.size_bytes, 1);
    let m = matrix(DataType::Int16, 3, 5);
    assert_eq!(m.shape, vec![3, 5]);
    assert_eq!(m.strides, vec![5, 1]);
    assert_eq!(m.size_bytes, 30);
    assert_eq!(vector(DataType::Float32, 7).size_bytes, 28);
    assert_eq!(image_nhwc(DataType::UInt8, 1, 4, 4, 3).shape, vec![1, 4, 4, 3]);
    assert_eq!(image_nchw(DataType::UInt8, 1, 3, 4, 4).strides, vec![48, 16, 4, 1]);
}

#[test]
fn broadcasting_compares_trailing_dimensions() {
    let a = TensorDesc::new(DataType::Float32, vec![8, 1, 6, 1]);
    let b = TensorDesc::new(DataType::Float32, vec![7, 1, 5]);
    assert!(a.is_broadcastable(&b));
    assert!(b.is_broadcastable(&a));
    let c = TensorDesc::new(DataType::Float32, vec![2, 3]);
    let d = TensorDesc::new(DataType::Float32, vec![4, 3]);
    assert!(!c.is_broadcastable(&d));
    let e = TensorDesc::new(DataType::Float32, vec![3]);
    assert!(c.is_broadcastable(&e));
}

#[test]
fn commands_are_dequeued_by_priority_then_order() {
    let mut q = CommandQueue::new(8);
    let a = q.submit(Command::new(CommandType::Barrier));
    let b = q.submit(Command::new(CommandType::Activation { buffer: 1, func: ActivationFunc::ReLU }).with_priority(5));
    let c = q.submit(Command::new(CommandType::Barrier).with_priority(5));
    assert_eq!((a, b, c), (1, 2, 3));
    assert_eq!(q.pending_count(), 3);
    let first = q.dequeue().unwrap();
    assert_eq!(first.id, b);
    assert_eq!(first.status, CommandStatus::Running);
    assert_eq!(q.dequeue().unwrap().id, c);
    assert_eq!(q.in_flight_count(), 2);
    assert_eq!(q.get_status(a), Some(CommandStatus::Pending));
    assert_eq!(q.get_status(b), Some(CommandStatus::Running));
    assert_eq!(q.wait(b), None);
    q.complete(b, CommandStatus::Completed);
    assert_eq!(q.get_status(b), Some(CommandStatus::Completed));
    assert_eq!(q.wait(b), Some(CommandStatus::Completed));
    assert_eq!(q.in_flight_count(), 1);
    assert_eq!(q.wait(99), Some(CommandStatus::Failed(1)));
    assert_eq!(q.get_status(99), None);
}

#[test]
fn completion_records_are_trimmed() {
    let mut q = CommandQueue::new(4);
    for id in 0..1001u64 {
        q.complete(id, CommandStatus::Completed);
    }
    // Past 1000 records the oldest 500 go.
    assert_eq!(q.get_status(0), None);
    assert_eq!(q.get_status(499), None);
    assert_eq!(q.get_status(500), Some(CommandStatus::Completed));
    assert_eq!(q.get_status(1000), Some(CommandStatus::Completed));
}

#[test]
fn memory_pool_allocates_within_its_size_and_frees() {
    let mut pool = NpuMemoryPool::new(1000);
    let a = pool.allocate(600, BufferUsage::ReadWrite).unwrap();
    assert_eq!(a, NpuBuffer { handle: 1, size: 600, usage: BufferUsage::ReadWrite, ptr: 0 });
    assert!(pool.allocate(500, BufferUsage::ReadOnly).is_none());
    let b = pool.allocate(400, BufferUsage::Scratch).unwrap();
    assert_eq!(b.handle, 2);
    pool.free(a);
    let c = pool.allocate(600, BufferUsage::Constant).unwrap();
    assert_eq!(c.handle, 3);
    // Freeing twice gives nothing back.
    pool.free(a);
    assert!(pool.allocate(1, BufferUsage::Scratch).is_none());
}

#[test]
fn buffer_mapping_and_write_permission() {
    let b = NpuBuffer::new(1, 64, BufferUsage::ReadWrite);
    assert!(!b.is_mapped());
    assert!(!b.is_writable());
    let mapped = NpuBuffer { ptr: 0x1000, ..b };
    assert!(mapped.is_mapped());
    assert!(mapped.is_writable());
    let ro = NpuBuffer { usage: BufferUsage::ReadOnly, ..mapped };
    assert!(!ro.is_writable());
    let k = NpuBuffer { usage: BufferUsage::Constant, ..mapped };
    assert!(!k.is_writable());
}

#[test]
fn device_defaults() {
    let c = NpuConfig::default();
    assert!(c.power_management);
    assert_eq!(c.queue_depth, 256);
    assert_eq!(c.memory_pool_mb, 256);
    assert!(!c.perf_counters);
    let s = NpuStats::new();
    assert_eq!(s.commands_submitted, 0);
    assert_eq!(NpuStats::default().bytes_processed, 0);
}

#[test]
fn command_ids_count_up_and_completion_is_recorded() {
    let mut q = CommandQueue::new(2);
    for n in 1..=5u64 {
        let id = q.submit(Command::new(CommandType::Barrier));
        assert_eq!(id, n);
        assert_eq!(q.get_status(id), Some(CommandStatus::Pending));
    }
    let c = q.dequeue().unwrap();
    assert_eq!(q.get_status(c.id), Some(CommandStatus::Running));
    assert_eq!(q.in_flight_count(), 1);
    q.complete(c.id, CommandStatus::Failed(7));
    assert_eq!(q.in_flight_count(), 0);
    assert_eq!(q.pending_count(), 4);
    assert_eq!(q.get_status(c.id), Some(CommandStatus::Failed(7)));
    assert_eq!(q.wait(c.id), Some(CommandStatus::Failed(7)));
}
