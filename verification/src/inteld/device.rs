//! Intel GPU device management.
use vstd::prelude::*;
use crate::inteld::gem::GemManager;

verus! {

/// Intel PCI vendor id.
pub const INTEL_VENDOR_ID: u16 = 0x8086;
/// Size of the GTT set up by `init_gem`: 2 GiB.
pub const GTT_SIZE: u64 = 2 * 1024 * 1024 * 1024;

/// An Intel GPU.
pub struct IntelDevice {
    vendor_id: u16,
    device_id: u16,
    generation: u8,
    gem: Option<GemManager>,
}

impl IntelDevice {
    /// The device's GEM manager, once initialized.
    pub closed spec fn gem_spec(&self) -> Option<GemManager> {
        self.gem
    }

    /// Vendor id of the device.
    pub closed spec fn vendor_id_spec(&self) -> u16 {
        self.vendor_id
    }

    /// Device id of the device.
    pub closed spec fn device_id_spec(&self) -> u16 {
        self.device_id
    }

    /// GPU generation.
    pub closed spec fn generation_spec(&self) -> u8 {
        self.generation
    }

    /// Describe the Intel Gen12 (Xe) GPU; GEM is set up later.
    pub fn new() -> (r: Result<Self, &'static str>)
        ensures
            r matches Ok(d) && d.vendor_id_spec() == INTEL_VENDOR_ID && d.device_id_spec() == 0
                && d.generation_spec() == 12 && d.gem_spec() is None,
    {
        Ok(IntelDevice { vendor_id: INTEL_VENDOR_ID, device_id: 0, generation: 12, gem: None })
    }

    pub fn vendor_id(&self) -> (v: u16)
        ensures
            v == self.vendor_id_spec(),
    {
        self.vendor_id
    }

    pub fn device_id(&self) -> (v: u16)
        ensures
            v == self.device_id_spec(),
    {
        self.device_id
    }

    pub fn generation(&self) -> (g: u8)
        ensures
            g == self.generation_spec(),
    {
        self.generation
    }

    /// Load the GuC/HuC firmware.
    pub fn load_firmware(&self) -> (r: Result<(), &'static str>)
        ensures
            r is Ok,
    {
        Ok(())
    }

    /// Set up GEM with a 2 GiB GTT.
    pub fn init_gem(&mut self) -> (r: Result<(), &'static str>)
        ensures
            r is Ok,
            final(self).gem_spec() matches Some(g) && g.wf() && g.objects_spec()
                == Map::<u32, crate::inteld::gem::GemObject>::empty() && g.next_handle_spec() == 1
                && g.gtt_next_spec() == 0 && g.gtt_size_spec() == GTT_SIZE,
            final(self).vendor_id_spec() == old(self).vendor_id_spec(),
            final(self).device_id_spec() == old(self).device_id_spec(),
            final(self).generation_spec() == old(self).generation_spec(),
    {
        self.gem = Some((GemManager::new(GTT_SIZE)));
        Ok(())
    }

    /// Set up the GTT/PPGTT.
    pub fn init_gtt(&self) -> (r: Result<(), &'static str>)
        ensures
            r is Ok,
    {
        Ok(())
    }

    /// Set up the rings (RCS, VCS, BCS, VECS).
    pub fn init_rings(&self) -> (r: Result<(), &'static str>)
        ensures
            r is Ok,
    {
        Ok(())
    }

    /// Set up the display.
    pub fn init_display(&self) -> (r: Result<(), &'static str>)
        ensures
            r is Ok,
    {
        Ok(())
    }

    /// Process pending device events (none are generated yet).
    pub fn process_events(&self) {
    }

    /// Process pending submissions (none are queued yet).
    pub fn process_submissions(&self) {
    }

    /// The device's GEM manager, once initialized.
    pub fn gem(&self) -> (g: Option<&GemManager>)
        ensures
            match g {
                Some(m) => self.gem_spec() == Some(*m),
                None => self.gem_spec() is None,
            },
    {
        self.gem.as_ref()
    }

    /// The device's GEM manager, once initialized, to allocate and free
    /// through; what is done through it stays with the device.
    pub fn gem_mut(&mut self) -> (g: Option<&mut GemManager>)
        ensures
            old(self).gem_spec() is None ==> g is None && final(self).gem_spec() is None,
            old(self).gem_spec() matches Some(m) ==> g matches Some(r) && *r == m
                && final(self).gem_spec() == Some(*final(r)),
            final(self).vendor_id_spec() == old(self).vendor_id_spec(),
            final(self).device_id_spec() == old(self).device_id_spec(),
            final(self).generation_spec() == old(self).generation_spec(),
    {
        self.gem.as_mut()
    }
}

} // verus!
