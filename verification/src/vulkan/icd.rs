//! ICD (Installable Client Driver) manifests and loaded drivers.
use vstd::prelude::*;
use super::extensions::names_contain;
use super::version::VulkanVersion;

verus! {

/// ICD manifest describing a Vulkan driver.
#[derive(Debug, Clone)]
pub struct IcdManifest {
    /// Driver name.
    pub name: String,
    /// API version supported.
    pub api_version: VulkanVersion,
    /// Path to the driver library.
    pub library_path: String,
    /// Supported extensions.
    pub extensions: Vec<String>,
}

impl IcdManifest {
    /// Creates a manifest with no library path and no extensions.
    pub fn new(name: &str, api_version: VulkanVersion) -> (m: Self)
        ensures
            m.name@ == name@,
            m.api_version == api_version,
            m.library_path@ == Seq::<char>::empty(),
            m.extensions@ == Seq::<String>::empty(),
    {
        IcdManifest {
            name: name.to_owned(),
            api_version,
            library_path: String::new(),
            extensions: Vec::new(),
        }
    }

    /// Whether the manifest lists the extension `ext_name`.
    pub fn supports_extension(&self, ext_name: &str) -> (b: bool)
        ensures
            b == names_contain(self.extensions@, ext_name@),
    {
        let wanted = ext_name.to_owned();
        let mut i: usize = 0;
        while i < self.extensions.len()
            invariant
                0 <= i <= self.extensions.len(),
                wanted@ == ext_name@,
                forall|j: int| 0 <= j < i ==> #[trigger] self.extensions@[j]@ != ext_name@,
            decreases self.extensions.len() - i,
        {
            if self.extensions[i] == wanted {
                return true;
            }
            i = i + 1;
        }
        false
    }
}

/// Loaded ICD driver instance.
pub struct IcdDriver {
    /// Manifest.
    pub manifest: IcdManifest,
    /// Driver handle (opaque).
    handle: usize,
}

impl IcdDriver {
    /// The manifest the driver was loaded from.
    pub closed spec fn loaded_manifest(&self) -> IcdManifest {
        self.manifest
    }

    /// Loads an ICD from its manifest; loading always succeeds and keeps the
    /// manifest.
    pub fn load(manifest: IcdManifest) -> (r: Result<Self, &'static str>)
        ensures
            r is Ok,
            r matches Ok(d) ==> d.loaded_manifest() == manifest,
    {
        Ok(IcdDriver { manifest, handle: 0 })
    }

    /// Entry point of `name` in the driver; no entry points are resolved.
    pub fn get_instance_proc_addr(&self, name: &str) -> (r: Option<usize>)
        ensures
            r is None,
    {
        None
    }
}

} // verus!
