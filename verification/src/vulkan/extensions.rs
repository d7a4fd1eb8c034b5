//! Vulkan extensions and the extension registry.
use vstd::prelude::*;

verus! {

/// Vulkan extension.
#[derive(Debug, Clone, PartialEq, Eq)]
pub struct Extension {
    /// Extension name.
    pub name: String,
    /// Spec version.
    pub spec_version: u32,
}

impl Extension {
    /// Creates an extension record.
    pub fn new(name: &str, spec_version: u32) -> (e: Self)
        ensures
            e.name@ == name@,
            e.spec_version == spec_version,
    {
        Extension { name: name.to_owned(), spec_version }
    }
}

/// Whether some string of `names` equals `name`.
pub open spec fn names_contain(names: Seq<String>, name: Seq<char>) -> bool {
    exists|i: int| 0 <= i < names.len() && #[trigger] names[i]@ == name
}

/// Scans `names` for `name`.
fn contains_name(names: &[String], name: &String) -> (b: bool)
    ensures
        b == names_contain(names@, name@),
{
    let mut i: usize = 0;
    while i < names.len()
        invariant
            0 <= i <= names.len(),
            forall|j: int| 0 <= j < i ==> #[trigger] names@[j]@ != name@,
        decreases names.len() - i,
    {
        if names[i] == *name {
            return true;
        }
        i = i + 1;
    }
    false
}

/// Ray tracing extension support.
pub struct RayTracingExtensions;

impl RayTracingExtensions {
    /// VK_KHR_ray_tracing_pipeline
    pub const RAY_TRACING_PIPELINE: &'static str = "VK_KHR_ray_tracing_pipeline";

    /// VK_KHR_acceleration_structure
    pub const ACCELERATION_STRUCTURE: &'static str = "VK_KHR_acceleration_structure";

    /// VK_KHR_ray_query
    pub const RAY_QUERY: &'static str = "VK_KHR_ray_query";

    /// VK_KHR_deferred_host_operations
    pub const DEFERRED_HOST_OPERATIONS: &'static str = "VK_KHR_deferred_host_operations";

    /// All extensions that ray tracing needs, with their spec versions.
    pub fn required_extensions() -> (v: Vec<Extension>)
        ensures
            v@.len() == 4,
            v@[0].name@ == Self::RAY_TRACING_PIPELINE@,
            v@[0].spec_version == 1,
            v@[1].name@ == Self::ACCELERATION_STRUCTURE@,
            v@[1].spec_version == 13,
            v@[2].name@ == Self::RAY_QUERY@,
            v@[2].spec_version == 1,
            v@[3].name@ == Self::DEFERRED_HOST_OPERATIONS@,
            v@[3].spec_version == 4,
    {
        let mut v: Vec<Extension> = Vec::new();
        v.push(Extension::new(Self::RAY_TRACING_PIPELINE, 1));
        v.push(Extension::new(Self::ACCELERATION_STRUCTURE, 13));
        v.push(Extension::new(Self::RAY_QUERY, 1));
        v.push(Extension::new(Self::DEFERRED_HOST_OPERATIONS, 4));
        v
    }

    /// Whether `available` names all ray tracing extensions: the four of
    /// `required_extensions`.
    pub fn are_supported(available: &[String]) -> (b: bool)
        ensures
            b == (names_contain(available@, Self::RAY_TRACING_PIPELINE@)
                && names_contain(available@, Self::ACCELERATION_STRUCTURE@)
                && names_contain(available@, Self::RAY_QUERY@)
                && names_contain(available@, Self::DEFERRED_HOST_OPERATIONS@)),
    {
        let pipeline = Self::RAY_TRACING_PIPELINE.to_owned();
        let accel = Self::ACCELERATION_STRUCTURE.to_owned();
        let query = Self::RAY_QUERY.to_owned();
        let deferred = Self::DEFERRED_HOST_OPERATIONS.to_owned();
        contains_name(available, &pipeline) && contains_name(available, &accel)
            && contains_name(available, &query) && contains_name(available, &deferred)
    }
}

/// Mesh shader extensions.
pub struct MeshShaderExtensions;

impl MeshShaderExtensions {
    /// VK_EXT_mesh_shader
    pub const MESH_SHADER: &'static str = "VK_EXT_mesh_shader";

    /// The mesh shader extension, spec version 1.
    pub fn required_extensions() -> (v: Vec<Extension>)
        ensures
            v@.len() == 1,
            v@[0].name@ == Self::MESH_SHADER@,
            v@[0].spec_version == 1,
    {
        let mut v: Vec<Extension> = Vec::new();
        v.push(Extension::new(Self::MESH_SHADER, 1));
        v
    }
}

/// Common instance extensions.
pub struct InstanceExtensions;

impl InstanceExtensions {
    pub const SURFACE: &'static str = "VK_KHR_surface";

    pub const SWAPCHAIN: &'static str = "VK_KHR_swapchain";

    pub const GET_PHYSICAL_DEVICE_PROPERTIES_2: &'static str =
        "VK_KHR_get_physical_device_properties2";
}

/// Whether some extension of `exts` has the name `name`.
pub open spec fn exts_contain(exts: Seq<Extension>, name: Seq<char>) -> bool {
    exists|i: int| 0 <= i < exts.len() && #[trigger] exts[i].name@ == name
}

/// No two extensions of `exts` share a name.
pub open spec fn names_unique(exts: Seq<Extension>) -> bool {
    forall|i: int, j: int|
        0 <= i < exts.len() && 0 <= j < exts.len() && i != j ==> #[trigger] exts[i].name@
            != #[trigger] exts[j].name@
}

/// Extension registry: each name at most once, in registration order.
pub struct ExtensionRegistry {
    extensions: Vec<Extension>,
}

impl ExtensionRegistry {
    /// The registered extensions, in registration order.
    pub closed spec fn exts(&self) -> Seq<Extension> {
        self.extensions@
    }

    /// The registry's invariant: no name is registered twice.
    pub closed spec fn wf(&self) -> bool {
        names_unique(self.extensions@)
    }

    /// Creates an empty registry.
    pub fn new() -> (r: Self)
        ensures
            r.wf(),
            r.exts() == Seq::<Extension>::empty(),
    {
        ExtensionRegistry { extensions: Vec::new() }
    }

    /// Registers `ext` unless an extension of the same name is registered.
    pub fn register(&mut self, ext: Extension)
        requires
            old(self).wf(),
        ensures
            final(self).wf(),
            exts_contain(old(self).exts(), ext.name@) ==> final(self).exts() == old(self).exts(),
            !exts_contain(old(self).exts(), ext.name@) ==> final(self).exts() == old(
                self,
            ).exts().push(ext),
            exts_contain(final(self).exts(), ext.name@),
    {
        let found = self.find(&ext.name);
        if !found {
            let ghost before = self.extensions@;
            self.extensions.push(ext);
            assert(self.extensions@[before.len() as int] == ext);
        } else {
        }
    }

    /// Scans for an extension named `name`.
    fn find(&self, name: &String) -> (b: bool)
        ensures
            b == exts_contain(self.exts(), name@),
    {
        let mut i: usize = 0;
        while i < self.extensions.len()
            invariant
                0 <= i <= self.extensions.len(),
                forall|j: int| 0 <= j < i ==> #[trigger] self.extensions@[j].name@ != name@,
            decreases self.extensions.len() - i,
        {
            if self.extensions[i].name == *name {
                return true;
            }
            i = i + 1;
        }
        false
    }

    /// Whether an extension named `name` is registered.
    pub fn is_registered(&self, name: &str) -> (b: bool)
        ensures
            b == exts_contain(self.exts(), name@),
    {
        let owned = name.to_owned();
        self.find(&owned)
    }

    /// All registered extensions, in registration order.
    pub fn all(&self) -> (s: &[Extension])
        ensures
            s@ == self.exts(),
    {
        self.extensions.as_slice()
    }
}

impl Default for ExtensionRegistry {
    fn default() -> (r: Self)
        ensures
            r.wf(),
            r.exts() == Seq::<Extension>::empty(),
    {
        Self::new()
    }
}

} // verus!
