//! Packed Vulkan API versions.
use vstd::prelude::*;

verus! {

/// Vulkan API version.
#[derive(Debug, Clone, Copy, PartialEq, Eq, Structural)]
pub struct VulkanVersion {
    pub major: u32,
    pub minor: u32,
    pub patch: u32,
}

/// The packed form: major in bits 22 and up, minor in bits 12..22, patch in
/// bits 0..12; fields wider than their slot lose their high bits.
pub open spec fn spec_pack(major: u32, minor: u32, patch: u32) -> u32 {
    (major << 22u32) | (minor << 12u32) | patch
}

/// The fields read back from a packed version.
pub open spec fn spec_unpack(v: u32) -> VulkanVersion {
    VulkanVersion { major: v >> 22u32, minor: (v >> 12u32) & 0x3FFu32, patch: v & 0xFFFu32 }
}

/// Whether each field fits its slot of the packed form.
pub open spec fn fits_packed(v: VulkanVersion) -> bool {
    v.major < 1024 && v.minor < 1024 && v.patch < 4096
}

impl VulkanVersion {
    /// Vulkan 1.0.
    pub fn vk_1_0() -> (v: Self)
        ensures
            v == (VulkanVersion { major: 1, minor: 0, patch: 0 }),
    {
        VulkanVersion { major: 1, minor: 0, patch: 0 }
    }

    /// Vulkan 1.1.
    pub fn vk_1_1() -> (v: Self)
        ensures
            v == (VulkanVersion { major: 1, minor: 1, patch: 0 }),
    {
        VulkanVersion { major: 1, minor: 1, patch: 0 }
    }

    /// Vulkan 1.2.
    pub fn vk_1_2() -> (v: Self)
        ensures
            v == (VulkanVersion { major: 1, minor: 2, patch: 0 }),
    {
        VulkanVersion { major: 1, minor: 2, patch: 0 }
    }

    /// Vulkan 1.3.
    pub fn vk_1_3() -> (v: Self)
        ensures
            v == (VulkanVersion { major: 1, minor: 3, patch: 0 }),
    {
        VulkanVersion { major: 1, minor: 3, patch: 0 }
    }

    /// Packs the version into the `u32` form used by the Vulkan API.
    pub fn to_u32(self) -> (r: u32)
        ensures
            r == spec_pack(self.major, self.minor, self.patch),
    {
        (self.major << 22) | (self.minor << 12) | self.patch
    }

    /// Unpacks a `u32` Vulkan version.
    pub fn from_u32(version: u32) -> (v: Self)
        ensures
            v == spec_unpack(version),
            fits_packed(v),
    {
        let v = VulkanVersion {
            major: version >> 22,
            minor: (version >> 12) & 0x3FF,
            patch: version & 0xFFF,
        };
        assert(version >> 22u32 < 1024 && (version >> 12u32) & 0x3FFu32 < 1024
            && version & 0xFFFu32 < 4096) by (bit_vector);
        v
    }
}

/// Unpacking a packed version gives back the version, when each field fits
/// its slot.
pub proof fn lemma_unpack_pack(v: VulkanVersion)
    requires
        fits_packed(v),
    ensures
        spec_unpack(spec_pack(v.major, v.minor, v.patch)) == v,
{
    let (a, b, c) = (v.major, v.minor, v.patch);
    assert(((a << 22u32) | (b << 12u32) | c) >> 22u32 == a
        && (((a << 22u32) | (b << 12u32) | c) >> 12u32) & 0x3FFu32 == b
        && ((a << 22u32) | (b << 12u32) | c) & 0xFFFu32 == c) by (bit_vector)
        requires
            a < 1024 && b < 1024 && c < 4096,
    ;
}

/// Packing the unpacked fields of any `u32` gives back the same `u32`.
pub proof fn lemma_pack_unpack(x: u32)
    ensures
        spec_pack(spec_unpack(x).major, spec_unpack(x).minor, spec_unpack(x).patch) == x,
{
    assert(((x >> 22u32) << 22u32) | (((x >> 12u32) & 0x3FFu32) << 12u32) | (x & 0xFFFu32) == x)
        by (bit_vector);
}

} // verus!
