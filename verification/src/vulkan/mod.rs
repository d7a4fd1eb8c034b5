//! Vulkan ICD loader: API versions, extension registry, driver manifests and
//! the loader that collects them.
pub mod extensions;
pub mod icd;
pub mod loader;
pub mod version;

pub use extensions::{Extension, ExtensionRegistry, InstanceExtensions, MeshShaderExtensions, RayTracingExtensions};
pub use icd::{IcdDriver, IcdManifest};
pub use loader::{discover_icds, enumerate_drivers, LoaderError, VulkanLoader};
pub use version::VulkanVersion;
