//! NPU driver core: tensor descriptors, the priority command queue, buffer
//! records, the device memory pool, and devices with the driver's device
//! table.
pub mod command;
pub mod device;
pub mod driver;
pub mod memory;
pub mod shapes;
pub mod tensor;

pub use command::{ActivationFunc, Command, CommandQueue, CommandStatus, CommandType};
pub use device::{Allocation, NpuConfig, NpuMemoryPool, NpuStats, NpuType};
pub use driver::{NpuDevice, NpuDriver};
pub use memory::{BufferUsage, MemoryLayout, MemoryStats, NpuBuffer};
pub use tensor::{DataType, TensorDesc};
