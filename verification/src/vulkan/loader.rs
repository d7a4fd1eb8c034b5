//! Vulkan loader: driver discovery and the loaded driver set.
use vstd::prelude::*;
use super::icd::{IcdDriver, IcdManifest};
use super::version::VulkanVersion;

verus! {

/// Loader error types.
#[derive(Debug, Clone, PartialEq, Eq)]
pub enum LoaderError {
    /// No drivers found.
    NoDriversFound,
    /// GAL scheme not available.
    GalNotAvailable,
    /// Driver load failed.
    DriverLoadFailed(String),
    /// Unsupported API version.
    UnsupportedVersion,
}

/// The manifest of the VirtIO-GPU driver, which is always present.
pub open spec fn is_virtio_manifest(m: IcdManifest) -> bool {
    &&& m.name@ == "virtio-gpu"@
    &&& m.api_version == (VulkanVersion { major: 1, minor: 2, patch: 0 })
    &&& m.library_path@ == "/scheme/gal/virtio"@
    &&& m.extensions@.len() == 2
    &&& m.extensions@[0]@ == "VK_KHR_surface"@
    &&& m.extensions@[1]@ == "VK_KHR_swapchain"@
}

/// Discovers the Vulkan ICDs served through the GAL scheme, given whether
/// that scheme could be opened.
pub fn discover_icds(gal_available: bool) -> (r: Result<Vec<IcdManifest>, LoaderError>)
    ensures
        !gal_available <==> r == Err::<Vec<IcdManifest>, LoaderError>(LoaderError::GalNotAvailable),
        gal_available ==> r is Ok,
        r matches Ok(v) ==> v@.len() == 1 && is_virtio_manifest(v@[0]),
{
    if !gal_available {
        return Err(LoaderError::GalNotAvailable);
    }
    let mut manifests: Vec<IcdManifest> = Vec::new();
    let mut virtio = IcdManifest::new("virtio-gpu", VulkanVersion::vk_1_2());
    virtio.library_path = "/scheme/gal/virtio".to_owned();
    let mut exts: Vec<String> = Vec::new();
    exts.push("VK_KHR_surface".to_owned());
    exts.push("VK_KHR_swapchain".to_owned());
    virtio.extensions = exts;
    manifests.push(virtio);
    Ok(manifests)
}

/// Enumerates the available Vulkan drivers.
pub fn enumerate_drivers(gal_available: bool) -> (r: Result<Vec<IcdManifest>, LoaderError>)
    ensures
        !gal_available <==> r == Err::<Vec<IcdManifest>, LoaderError>(LoaderError::GalNotAvailable),
        gal_available ==> r is Ok,
        r matches Ok(v) ==> v@.len() == 1 && is_virtio_manifest(v@[0]),
{
    discover_icds(gal_available)
}

/// Main Vulkan loader.
pub struct VulkanLoader {
    /// Loaded ICDs.
    drivers: Vec<IcdDriver>,
    /// Enabled layers.
    layers: Vec<String>,
}

impl VulkanLoader {
    /// The loaded drivers.
    pub closed spec fn driver_seq(&self) -> Seq<IcdDriver> {
        self.drivers@
    }

    /// The enabled layers, in the order they were enabled.
    pub closed spec fn layer_names(&self) -> Seq<Seq<char>> {
        self.layers@.map_values(|s: String| s@)
    }

    /// Creates a loader holding every discovered driver: it fails only as
    /// discovery does (without the GAL scheme), since discovery always finds
    /// the VirtIO driver and loading a driver always succeeds.
    pub fn new(gal_available: bool) -> (r: Result<Self, LoaderError>)
        ensures
            !gal_available <==> r matches Err(LoaderError::GalNotAvailable),
            gal_available ==> r is Ok,
            r matches Ok(l) ==> l.driver_seq().len() == 1 && is_virtio_manifest(
                l.driver_seq()[0].loaded_manifest(),
            ) && l.layer_names() == Seq::<Seq<char>>::empty(),
    {
        let manifests = match discover_icds(gal_available) {
            Ok(m) => m,
            Err(e) => {
                return Err(e);
            },
        };
        let ghost found = manifests@;
        let mut loaded: Vec<IcdDriver> = Vec::new();
        let mut rest = manifests;
        while rest.len() > 0
            invariant
                loaded@.len() + rest@.len() == found.len(),
                forall|i: int| 0 <= i < loaded@.len() ==> #[trigger] loaded@[i].loaded_manifest() == found[i],
                forall|i: int|
                    0 <= i < rest@.len() ==> #[trigger] rest@[i] == found[loaded@.len() + i],
            decreases rest@.len(),
        {
            let m = rest.remove(0);
            match IcdDriver::load(m) {
                Ok(d) => loaded.push(d),
                Err(_) => {},
            }
        }
        if loaded.len() == 0 {
            return Err(LoaderError::NoDriversFound);
        }
        let l = VulkanLoader { drivers: loaded, layers: Vec::new() };
        assert(l.layer_names() =~= Seq::<Seq<char>>::empty());
        Ok(l)
    }

    /// The loaded drivers.
    pub fn drivers(&self) -> (s: &[IcdDriver])
        ensures
            s@ == self.driver_seq(),
    {
        self.drivers.as_slice()
    }

    /// Enables a validation layer.
    pub fn enable_layer(&mut self, layer_name: &str)
        ensures
            final(self).layer_names() == old(self).layer_names().push(layer_name@),
            final(self).driver_seq() == old(self).driver_seq(),
    {
        self.layers.push(layer_name.to_owned());
        assert(self.layers@.map_values(|s: String| s@) =~= old(self).layers@.map_values(
            |s: String| s@,
        ).push(layer_name@));
    }

    /// The first driver's entry point for `name`; no driver resolves entry
    /// points, so there is none.
    pub fn get_instance_proc_addr(&self, name: &str) -> (r: Option<usize>)
        ensures
            r is None,
    {
        let mut i: usize = 0;
        while i < self.drivers.len()
            invariant
                0 <= i <= self.drivers.len(),
            decreases self.drivers.len() - i,
        {
            if let Some(addr) = self.drivers[i].get_instance_proc_addr(name) {
                return Some(addr);
            }
            i = i + 1;
        }
        None
    }
}

} // verus!
