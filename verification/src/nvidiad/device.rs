//! NVIDIA GPU device management.
use vstd::prelude::*;
use std::sync::Arc;
use crate::nvidiad::ttm::{TtmManager, TtmObject, TtmPlacement};

verus! {

/// NVIDIA PCI vendor id.
pub const NVIDIA_VENDOR_ID: u16 = 0x10de;
/// VRAM managed by `init_ttm`: 512 MiB.
pub const TTM_VRAM_SIZE: u64 = 512 * 1024 * 1024;
/// GTT managed by `init_ttm`: 1 GiB.
pub const TTM_GTT_SIZE: u64 = 1024 * 1024 * 1024;

/// An NVIDIA GPU.
pub struct NvidiaDevice {
    vendor_id: u16,
    device_id: u16,
    ttm: Option<TtmManager>,
}

impl NvidiaDevice {
    /// The device's TTM manager, once initialized.
    pub closed spec fn ttm_spec(&self) -> Option<TtmManager> {
        self.ttm
    }

    /// Vendor id of the device.
    pub closed spec fn vendor_id_spec(&self) -> u16 {
        self.vendor_id
    }

    /// Device id of the device.
    pub closed spec fn device_id_spec(&self) -> u16 {
        self.device_id
    }

    /// Describe the NVIDIA GPU; TTM is set up later.
    pub fn new() -> (r: Result<Self, &'static str>)
        ensures
            r matches Ok(d) && d.vendor_id_spec() == NVIDIA_VENDOR_ID && d.device_id_spec() == 0
                && d.ttm_spec() is None,
    {
        Ok(NvidiaDevice { vendor_id: NVIDIA_VENDOR_ID, device_id: 0, ttm: None })
    }

    pub fn vendor_id(&self) -> (v: u16)
        ensures
            v == self.vendor_id_spec(),
    {
        self.vendor_id
    }

    pub fn device_id(&self) -> (v: u16)
        ensures
            v == self.device_id_spec(),
    {
        self.device_id
    }

    /// Load the GSP-RM firmware.
    pub fn load_firmware(&self) -> (r: Result<(), &'static str>)
        ensures
            r is Ok,
    {
        Ok(())
    }

    /// Set up TTM with 512 MiB of VRAM and 1 GiB of GTT.
    pub fn init_ttm(&mut self) -> (r: Result<(), &'static str>)
        ensures
            r is Ok,
            final(self).ttm_spec() matches Some(t) && t.wf() && t.objects_spec() == Map::<
                u32,
                TtmObject,
            >::empty() && t.next_handle_spec() == 1 && t.pool_size_spec(TtmPlacement::Vram)
                == TTM_VRAM_SIZE && t.pool_size_spec(TtmPlacement::Gtt) == TTM_GTT_SIZE
                && t.pool_next_spec(TtmPlacement::Vram) == 0 && t.pool_next_spec(TtmPlacement::Gtt)
                == 0,
            final(self).vendor_id_spec() == old(self).vendor_id_spec(),
            final(self).device_id_spec() == old(self).device_id_spec(),
    {
        self.ttm = Some((TtmManager::new(TTM_VRAM_SIZE, TTM_GTT_SIZE)));
        Ok(())
    }

    /// Set up the channels.
    pub fn init_channels(&self) -> (r: Result<(), &'static str>)
        ensures
            r is Ok,
    {
        Ok(())
    }

    /// Set up the display.
    pub fn init_display(&self) -> (r: Result<(), &'static str>)
        ensures
            r is Ok,
    {
        Ok(())
    }

    /// Process pending device events (none are generated yet).
    pub fn process_events(&self) {
    }

    /// Process pending submissions (none are queued yet).
    pub fn process_submissions(&self) {
    }

    /// The device's TTM manager, once initialized.
    pub fn ttm(&self) -> (g: Option<&TtmManager>)
        ensures
            match g {
                Some(m) => self.ttm_spec() == Some(*m),
                None => self.ttm_spec() is None,
            },
    {
        self.ttm.as_ref()
    }

    /// The device's TTM manager, once initialized, to allocate and free
    /// through; what is done through it stays with the device.
    pub fn ttm_mut(&mut self) -> (g: Option<&mut TtmManager>)
        ensures
            old(self).ttm_spec() is None ==> g is None && final(self).ttm_spec() is None,
            old(self).ttm_spec() matches Some(m) ==> g matches Some(r) && *r == m
                && final(self).ttm_spec() == Some(*final(r)),
            final(self).vendor_id_spec() == old(self).vendor_id_spec(),
            final(self).device_id_spec() == old(self).device_id_spec(),
    {
        self.ttm.as_mut()
    }
}

/// Registration of the NVIDIA device with the kernel graphics abstraction
/// layer.
pub struct NvidiaGalBackend {
    device: Arc<NvidiaDevice>,
}

impl NvidiaGalBackend {
    /// The device served by this backend.
    pub closed spec fn device_spec(&self) -> Arc<NvidiaDevice> {
        self.device
    }

    /// Create a backend for a device.
    pub fn new(device: Arc<NvidiaDevice>) -> (b: Self)
        ensures
            b.device_spec() == device,
    {
        NvidiaGalBackend { device }
    }

    /// Register with the kernel GAL.
    pub fn register(&self) -> (r: Result<(), &'static str>)
        ensures
            r is Ok,
    {
        Ok(())
    }
}

} // verus!
