use redox_drivers::vulkan::extensions::{
    Extension, ExtensionRegistry, InstanceExtensions, MeshShaderExtensions, RayTracingExtensions,
};
use redox_drivers::vulkan::icd::{IcdDriver, IcdManifest};
use redox_drivers::vulkan::loader::{discover_icds, enumerate_drivers, LoaderError, VulkanLoader};
use redox_drivers::vulkan::version::VulkanVersion;

#[test]
fn versions_pack_and_unpack() {
    assert_eq!(VulkanVersion::vk_1_0().to_u32(), 1 << 22);
    assert_eq!(VulkanVersion::vk_1_3().to_u32(), (1 << 22) | (3 << 12));
    let v = VulkanVersion { major: 1, minor: 2, patch: 197 };
    assert_eq!(VulkanVersion::from_u32(v.to_u32()), v);
    let w = VulkanVersion::from_u32(0x0040_3005);
    assert_eq!((w.major, w.minor, w.patch), (1, 3, 5));
    assert_eq!(VulkanVersion::from_u32(u32::MAX).patch, 0xFFF);
    assert_eq!(VulkanVersion::vk_1_1().minor, 1);
    assert_eq!(VulkanVersion::vk_1_2().minor, 2);
}

#[test]
fn ray_tracing_needs_all_four_extensions() {
    let required = RayTracingExtensions::required_extensions();
    assert_eq!(required.len(), 4);
    assert_eq!(required[1], Extension::new("VK_KHR_acceleration_structure", 13));
    let mut available: Vec<String> = vec![
        RayTracingExtensions::RAY_TRACING_PIPELINE.to_string(),
        RayTracingExtensions::ACCELERATION_STRUCTURE.to_string(),
    ];
    assert!(!RayTracingExtensions::are_supported(&available));
    available.push(RayTracingExtensions::RAY_QUERY.to_string());
    assert!(!RayTracingExtensions::are_supported(&available));
    available.push(RayTracingExtensions::DEFERRED_HOST_OPERATIONS.to_string());
    assert!(RayTracingExtensions::are_supported(&available));
    let mesh = MeshShaderExtensions::required_extensions();
    assert_eq!(mesh, vec![Extension::new("VK_EXT_mesh_shader", 1)]);
    assert_eq!(InstanceExtensions::SWAPCHAIN, "VK_KHR_swapchain");
}

#[test]
fn registry_keeps_each_name_once() {
    let mut r = ExtensionRegistry::new();
    assert!(!r.is_registered(InstanceExtensions::SURFACE));
    r.register(Extension::new(InstanceExtensions::SURFACE, 25));
    r.register(Extension::new(InstanceExtensions::SURFACE, 26));
    r.register(Extension::new(InstanceExtensions::SWAPCHAIN, 70));
    assert!(r.is_registered("VK_KHR_surface"));
    assert_eq!(r.all().len(), 2);
    assert_eq!(r.all()[0].spec_version, 25);
    assert_eq!(ExtensionRegistry::default().all().len(), 0);
}

#[test]
fn manifests_and_drivers() {
    let mut m = IcdManifest::new("test", VulkanVersion::vk_1_1());
    assert!(m.library_path.is_empty());
    assert!(!m.supports_extension("VK_KHR_surface"));
    m.extensions.push("VK_KHR_surface".to_string());
    assert!(m.supports_extension("VK_KHR_surface"));
    let d = IcdDriver::load(m).unwrap();
    assert_eq!(d.manifest.name, "test");
    assert!(d.get_instance_proc_addr("vkCreateInstance").is_none());
}

#[test]
fn discovery_needs_the_gal_scheme() {
    assert!(matches!(discover_icds(false), Err(LoaderError::GalNotAvailable)));
    let found = discover_icds(true).unwrap();
    assert_eq!(found.len(), 1);
    assert_eq!(found[0].name, "virtio-gpu");
    assert_eq!(found[0].library_path, "/scheme/gal/virtio");
    assert_eq!(found[0].api_version, VulkanVersion::vk_1_2());
    assert_eq!(found[0].extensions, vec!["VK_KHR_surface".to_string(), "VK_KHR_swapchain".to_string()]);
    assert_eq!(enumerate_drivers(true).unwrap().len(), 1);
    assert!(matches!(VulkanLoader::new(false), Err(LoaderError::GalNotAvailable)));
}

#[test]
fn loader_holds_the_driver_and_layers() {
    let mut l = VulkanLoader::new(true).ok().unwrap();
    assert_eq!(l.drivers().len(), 1);
    assert_eq!(l.drivers()[0].manifest.name, "virtio-gpu");
    l.enable_layer("VK_LAYER_KHRONOS_validation");
    assert!(l.get_instance_proc_addr("vkCreateInstance").is_none());
}
