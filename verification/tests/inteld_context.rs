use redox_drivers::inteld::context::{Context, ContextParams};
use redox_drivers::inteld::device::IntelDevice;
use redox_drivers::inteld::execbuf::{submit, ExecBuffer};
use redox_drivers::inteld::gem::{GemFlags, GemManager};
use redox_drivers::inteld::mmio::MmioRegs;
use core::sync::atomic::AtomicU64;
use std::sync::Arc;

#[test]
fn test_submission_vram_bounds() {
    let ctx = Context {
        id: 1,
        params: ContextParams {
            core_mask: 0xF,
            priority: 0,
        },
        ring_buffer_head: AtomicU64::new(0),
        vram_start: 0,
        vram_size: 64 * 1024 * 1024,
    };

    assert!(ctx.validate_submission(0, 1024).is_ok());
    assert!(ctx
        .validate_submission(64 * 1024 * 1024 - 1024, 1024)
        .is_ok());

    assert!(ctx.validate_submission(64 * 1024 * 1024, 1).is_err());
    assert!(ctx
        .validate_submission(64 * 1024 * 1024 - 512, 1024)
        .is_err());

    assert!(ctx.validate_submission(u64::MAX - 10, 20).is_err());
}

#[test]
fn validate_submission_messages() {
    let ctx = Context::new(3, ContextParams::default(), 0x1000, 0x1000);
    assert_eq!(ctx.validate_submission(u64::MAX, 1), Err("Overflow"));
    assert_eq!(ctx.validate_submission(0, 1), Err("Out of VRAM bounds"));
    let wrapped = Context::new(4, ContextParams::default(), u64::MAX, 2);
    assert_eq!(wrapped.validate_submission(0, 1), Err("Overflow"));
}

#[test]
fn apply_mask_writes_low_half_of_mask() {
    let ctx = Context::new(1, ContextParams { core_mask: 0x1234_5678_9ABC_DEF0, priority: 2 }, 0, 0);
    let w = ctx.apply_mask();
    assert_eq!(w.offset, 0x24C0);
    assert_eq!(w.value, 0x9ABC_DEF0);
}

#[test]
fn submit_refuses_context_without_cores() {
    let device = Arc::new(IntelDevice::new().unwrap());
    let idle = Arc::new(Context::new(1, ContextParams { core_mask: 0, priority: 0 }, 0, 0));
    let eb = ExecBuffer { batch_start_offset: 0, batch_len: 0 };
    assert_eq!(submit(&idle, &device, &eb), Err("No GPU cores allocated to this context"));
    let busy = Arc::new(Context::new(2, ContextParams { core_mask: 0x3, priority: 0 }, 0, 0));
    let w = submit(&busy, &device, &eb).unwrap();
    assert_eq!(w.value, 3);
}

#[test]
fn gem_allocations_are_page_aligned() {
    let mut gem = GemManager::new(0x3000);
    let a = gem.allocate(1, GemFlags::from_bits_truncate(GemFlags::CPU_ACCESS)).unwrap();
    let b = gem.allocate(4097, GemFlags::empty()).unwrap();
    assert_eq!(a, 1);
    assert_eq!(b, 2);
    assert_eq!(gem.get(a).unwrap().gtt_offset, 0);
    assert_eq!(gem.get(b).unwrap().gtt_offset, 0x1000);
    assert_eq!(gem.get(b).unwrap().size, 4097);
    assert_eq!(gem.allocate(1, GemFlags::empty()), Err("Out of GTT space"));
    assert!(gem.free(a).is_ok());
    assert_eq!(gem.free(a), Err("Invalid handle"));
    assert!(gem.get(a).is_none());
}

#[test]
fn device_init_gem_creates_manager() {
    let mut dev = IntelDevice::new().unwrap();
    assert_eq!(dev.vendor_id(), 0x8086);
    assert_eq!(dev.generation(), 12);
    assert!(dev.gem().is_none());
    dev.init_gem().unwrap();
    assert!(dev.gem().is_some());
}

#[test]
fn rmw32_sets_and_clears_bits() {
    let regs = MmioRegs::new(0x1000, 0x100);
    assert!(regs.in_range32(0xFC));
    assert!(!regs.in_range32(0xFD));
    let w = regs.rmw32(0x10, 0b1010, 0b0001, 0b1000);
    assert_eq!(w.offset, 0x10);
    assert_eq!(w.value, 0b0011);
}

#[test]
fn freeing_a_fresh_allocation_leaves_the_others() {
    let mut gem = GemManager::new(0x10000);
    let a = gem.allocate(100, GemFlags::empty()).unwrap();
    let b = gem.allocate(5000, GemFlags::empty()).unwrap();
    assert_ne!(a, b);
    assert_eq!(gem.free(b), Ok(()));
    assert!(gem.get(b).is_none());
    let first = gem.get(a).unwrap();
    assert_eq!(first.handle, a);
    assert_eq!(first.size, 100);
    assert_eq!(gem.free(b), Err("Invalid handle"));
}

#[test]
fn gem_freed_ranges_are_not_handed_out_again() {
    let mut gem = GemManager::new(0x4000);
    let a = gem.allocate(0x1000, GemFlags::empty()).unwrap();
    let b = gem.allocate(10, GemFlags::empty()).unwrap();
    assert!(gem.free(a).is_ok());
    let c = gem.allocate(0x1000, GemFlags::empty()).unwrap();
    assert_eq!(gem.get(b).unwrap().gtt_offset, 0x1000);
    assert_eq!(gem.get(c).unwrap().gtt_offset, 0x2000);
}

#[test]
fn gem_allocations_go_through_the_device() {
    let mut dev = IntelDevice::new().unwrap();
    assert!(dev.gem_mut().is_none());
    dev.init_gem().unwrap();
    let h = dev.gem_mut().unwrap().allocate(100, GemFlags::empty()).unwrap();
    assert_eq!(h, 1);
    assert_eq!(dev.gem().unwrap().get(h).unwrap().size, 100);
}
