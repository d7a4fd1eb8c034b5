use redox_drivers::latency::anti_lag;
use redox_drivers::latency::boost::BoostContext;
use redox_drivers::latency::common::{LatencyError, LatencyMode};
use redox_drivers::latency::frame_pacing::{FramePacer, PacingStrategy};
use redox_drivers::latency::reflex::{self, ReflexMode};
use redox_drivers::nvidiad::device::NvidiaDevice;
use redox_drivers::nvidiad::ttm::{TtmFlags, TtmManager, TtmPlacement};
use redox_drivers::nvme_core::nvmeof::{NvmeOfTargetDaemon, RdmaFabricCommand};
use redox_drivers::nvme_core::runqueue::{
    check_coalesce_fits, coalesce_batch, NvmeBlockDescriptor, NvmeOpcode, PerCoreNvmeQueue,
};
use redox_drivers::touch::{FrameGesture, GestureEngine, TouchPoint};
use redox_drivers::upscaling::common::{UpscalingBackend, UpscalingQuality};
use redox_drivers::upscaling::dlss::{self, DlssPreset};
use redox_drivers::upscaling::subsystem::detect_backends;

fn pt(id: u32, x: u32, y: u32) -> TouchPoint {
    TouchPoint { id, x, y, pressure: 100, major_axis: 10, is_palm: false }
}

#[test]
fn touch_tap_then_swipe() {
    let mut e = GestureEngine::new(1920, 1080);
    assert_eq!(e.process_frame(vec![pt(1, 100, 100)]), FrameGesture::Tap { x: 100, y: 100 });
    assert_eq!(e.process_frame(vec![pt(1, 105, 110)]), FrameGesture::NoGesture);
    assert_eq!(e.process_frame(vec![pt(1, 130, 110)]), FrameGesture::Swipe { dx: 25, dy: 0 });
    assert_eq!(e.process_frame(vec![pt(1, 100, 90)]), FrameGesture::Swipe { dx: -30, dy: -20 });
    assert_eq!(e.process_frame(Vec::new()), FrameGesture::NoGesture);
}

#[test]
fn touch_rejects_palms() {
    let mut e = GestureEngine::new(1920, 1080);
    let palm = TouchPoint { major_axis: 40, ..pt(2, 10, 10) };
    assert_eq!(e.process_frame(vec![palm]), FrameGesture::NoGesture);
    let hard = TouchPoint { pressure: 951, ..pt(3, 10, 10) };
    assert_eq!(e.process_frame(vec![hard]), FrameGesture::NoGesture);
    let marked = TouchPoint { is_palm: true, ..pt(4, 10, 10) };
    assert_eq!(e.process_frame(vec![marked, pt(5, 50, 50)]), FrameGesture::Tap { x: 50, y: 50 });
}

#[test]
fn touch_two_fingers_report_both_positions() {
    let mut e = GestureEngine::new(1920, 1080);
    assert_eq!(e.process_frame(vec![pt(1, 100, 100), pt(2, 200, 200)]), FrameGesture::NoGesture);
    let g = e.process_frame(vec![pt(1, 90, 90), pt(2, 210, 210)]);
    assert_eq!(
        g,
        FrameGesture::TwoFinger {
            first: pt(1, 90, 90),
            second: pt(2, 210, 210),
            first_before: pt(1, 100, 100),
            second_before: pt(2, 200, 200),
        }
    );
}

#[test]
fn latency_modes_and_boost() {
    assert_eq!(anti_lag::recommended_mode(144), LatencyMode::On);
    assert_eq!(anti_lag::recommended_mode(240), LatencyMode::Boost);
    assert!(anti_lag::is_supported());
    assert_eq!(ReflexMode::from(LatencyMode::Boost), ReflexMode::LowLatencyBoost);
    assert_eq!(ReflexMode::from(LatencyMode::Off), ReflexMode::Off);
    assert_eq!(reflex::recommended_competitive_mode(), ReflexMode::LowLatencyBoost);
    let mut b = BoostContext::new().ok().unwrap();
    assert!(!b.cpu_priority_boost());
    assert!(b.set_mode(LatencyMode::Boost).is_ok());
    assert!(b.cpu_priority_boost() && b.gpu_clock_boost());
    assert!(b.set_mode(LatencyMode::On).is_ok());
    assert!(b.cpu_priority_boost() && !b.gpu_clock_boost());
    b.set_gpu_clock_boost(true);
    assert!(b.gpu_clock_boost());
    assert_eq!(LatencyError::InvalidMode.message(), "Invalid mode");
}

#[test]
fn frame_pacing_waits_out_the_frame_budget() {
    let mut p = FramePacer::new(PacingStrategy::Adaptive, 100);
    assert!(p.begin_frame().is_ok());
    assert!(p.end_frame(4_000).is_ok());
    assert_eq!(p.adaptive_wait_us(), 6_000);
    assert!(p.end_frame(12_000).is_ok());
    assert_eq!(p.adaptive_wait_us(), 0);
    assert_eq!(p.current_frame_time_us(), 12_000);
    assert_eq!(p.frame_count(), 1);
    p.set_target_fps(50);
    assert!(p.end_frame(5_000).is_ok());
    assert_eq!(p.adaptive_wait_us(), 15_000);
    p.set_strategy(PacingStrategy::VSync);
    assert_eq!(p.adaptive_wait_us(), 0);
}

#[test]
fn upscaling_names_and_presets() {
    assert_eq!(UpscalingBackend::DLSS.name(), "NVIDIA DLSS");
    assert_eq!(UpscalingQuality::UltraPerformance.name(), "Ultra Performance");
    assert_eq!(DlssPreset::from_quality(UpscalingQuality::Balanced), DlssPreset::PresetA);
    assert_eq!(DlssPreset::from_quality(UpscalingQuality::UltraQuality), DlssPreset::PresetF);
    assert_eq!(dlss::recommended_quality_for_fps(60), UpscalingQuality::Quality);
    assert_eq!(dlss::recommended_quality_for_fps(120), UpscalingQuality::Balanced);
    assert_eq!(dlss::recommended_quality_for_fps(144), UpscalingQuality::Performance);
    assert_eq!(dlss::recommended_quality_for_fps(500), UpscalingQuality::UltraPerformance);
    assert_eq!(detect_backends(), vec![UpscalingBackend::FSR, UpscalingBackend::DLSS, UpscalingBackend::XeSS]);
}

fn desc(opcode: NvmeOpcode, lba: u64, n: u32, id: u16) -> NvmeBlockDescriptor {
    NvmeBlockDescriptor { opcode, lba_start: lba, sector_count: n, dma_buffer_phys: 0x1000 * id as u64, command_id: id }
}

#[test]
fn coalescing_merges_adjacent_runs() {
    let raw = vec![
        desc(NvmeOpcode::Read, 0, 8, 1),
        desc(NvmeOpcode::Read, 8, 8, 2),
        desc(NvmeOpcode::Write, 16, 8, 3),
        desc(NvmeOpcode::Flush, 0, 0, 4),
        desc(NvmeOpcode::Flush, 0, 0, 5),
    ];
    assert!(check_coalesce_fits(&raw));
    let (out, merges) = coalesce_batch(&raw);
    assert_eq!(merges, 1);
    assert_eq!(out.len(), 4);
    assert_eq!(out[0], desc(NvmeOpcode::Read, 0, 16, 1));
    assert_eq!(out[1].command_id, 3);
    assert_eq!(NvmeOpcode::Read.value(), 2);
    let (empty, none) = coalesce_batch(&Vec::new());
    assert!(empty.is_empty());
    assert_eq!(none, 0);
}

#[test]
fn per_core_queue_rings_fill_and_coalesce() {
    let mut q = PerCoreNvmeQueue::new(0, 2);
    assert!(q.submit(desc(NvmeOpcode::Write, 0, 8, 1)).is_ok());
    assert!(q.submit(desc(NvmeOpcode::Write, 8, 8, 2)).is_ok());
    let third = desc(NvmeOpcode::Write, 16, 8, 3);
    assert_eq!(q.submit(third), Err(third));
    let out = q.coalesce_pending_requests();
    assert_eq!(out, vec![desc(NvmeOpcode::Write, 0, 16, 1)]);
    assert_eq!(q.total_coalesced, 1);
    assert!(q.drain_submissions().is_empty());
    assert!(q.submit(third).is_ok());
    assert_eq!(q.try_coalesce_pending_requests(), Ok(vec![third]));
}

#[test]
fn rdma_requests_become_block_descriptors() {
    let mut d = NvmeOfTargetDaemon::new(PerCoreNvmeQueue::new(1, 4));
    let cmd = RdmaFabricCommand { remote_rkey: 1, remote_vaddr: 0xdead000, local_lba_start: 64, length_bytes: 1000, is_write: true, command_id: 9 };
    assert!(d.handle_rdma_request(cmd).is_ok());
    assert_eq!(d.total_rdma_writes, 1);
    assert!(d.handle_rdma_request(RdmaFabricCommand { is_write: false, ..cmd }).is_ok());
    assert_eq!(d.total_rdma_reads, 1);
    let pending = d.local_queue.drain_submissions();
    assert_eq!(pending[0], NvmeBlockDescriptor { opcode: NvmeOpcode::Write, lba_start: 64, sector_count: 2, dma_buffer_phys: 0xdead000, command_id: 9 });
    assert_eq!(pending[1].opcode, NvmeOpcode::Read);
}

#[test]
fn ttm_allocates_page_aligned_from_its_pool() {
    let mut m = TtmManager::new(0x10000, 0x2000);
    let a = m.allocate(100, TtmPlacement::Vram, TtmFlags::empty()).unwrap();
    let b = m.allocate(5000, TtmPlacement::Vram, TtmFlags::empty()).unwrap();
    assert_eq!((a, b), (1, 2));
    assert_eq!(m.get(a).unwrap().gpu_addr, 0);
    assert_eq!(m.get(b).unwrap().gpu_addr, 0x1000);
    assert_eq!(m.allocate(0x3000, TtmPlacement::Gtt, TtmFlags::empty()), Err("Out of memory"));
    let c = m.allocate(0x2000, TtmPlacement::System, TtmFlags::empty()).unwrap();
    assert_eq!(c, 4);
    assert_eq!(m.get(c).unwrap().gpu_addr, 0);
    assert_eq!(m.free(a), Ok(()));
    assert_eq!(m.free(a), Err("Invalid handle"));
    assert!(m.get(a).is_none());
    assert!(TtmFlags::from_bits_truncate(0xff).contains(TtmFlags::from_bits_truncate(TtmFlags::PINNED)));
    assert_eq!(TtmFlags::from_bits_truncate(0xff).bits(), 0xf);
}

#[test]
fn ttm_free_of_fresh_allocation_keeps_older_objects() {
    let mut m = TtmManager::new(0x10000, 0x10000);
    let a = m.allocate(64, TtmPlacement::Vram, TtmFlags::empty()).unwrap();
    let b = m.allocate(64, TtmPlacement::Gtt, TtmFlags::empty()).unwrap();
    assert_ne!(a, b);
    m.free(b).unwrap();
    assert!(m.get(b).is_none());
    assert_eq!(m.get(a).unwrap().handle, a);
}

#[test]
fn ttm_system_shares_gtt_and_migration_moves_buffers() {
    let mut m = TtmManager::new(8192, 4096);
    let f = TtmFlags::empty();
    assert_eq!(m.allocate(1, TtmPlacement::Vram, f), Ok(1));
    assert_eq!(m.get(1).unwrap().gpu_addr, 0);
    assert_eq!(m.allocate(4097, TtmPlacement::Gtt, f), Err("Out of memory"));
    assert_eq!(m.allocate(4096, TtmPlacement::System, f), Ok(3));
    assert_eq!(m.get(3).unwrap().gpu_addr, 0);
    assert_eq!(m.allocate(4096, TtmPlacement::Vram, f), Ok(4));
    assert_eq!(m.get(4).unwrap().gpu_addr, 4096);
    assert_eq!(m.migrate(3, TtmPlacement::Gtt), Ok(()));
    assert_eq!(m.get(3).unwrap().placement, TtmPlacement::Gtt);
    assert_eq!(m.get(3).unwrap().gpu_addr, 0);
    assert_eq!(m.migrate(1, TtmPlacement::Gtt), Err("Out of memory"));
    assert_eq!(m.get(1).unwrap().placement, TtmPlacement::Vram);
    assert_eq!(m.free(4), Ok(()));
    let mut n = TtmManager::new(8192, 8192);
    assert_eq!(n.allocate(100, TtmPlacement::Vram, f), Ok(1));
    assert_eq!(n.allocate(100, TtmPlacement::Gtt, f), Ok(2));
    assert_eq!(n.migrate(1, TtmPlacement::System), Ok(()));
    let moved = n.get(1).unwrap();
    assert_eq!((moved.placement, moved.gpu_addr), (TtmPlacement::System, 4096));
    assert_eq!(n.migrate(77, TtmPlacement::Vram), Ok(()));
}

#[test]
fn touch_wide_swipe_ignores_the_vertical_magnitude() {
    let mut e = GestureEngine::new(1920, 1080);
    e.process_frame(vec![pt(1, 0, 0)]);
    let far = pt(1, 100, 0x8000_0000);
    assert!(e.frame_fits(&vec![far]));
    assert_eq!(e.process_frame(vec![far]), FrameGesture::Swipe { dx: 100, dy: i32::MIN });
    let mut e2 = GestureEngine::new(1920, 1080);
    e2.process_frame(vec![pt(1, 0, 0)]);
    assert!(!e2.frame_fits(&vec![pt(1, 5, 0x8000_0000)]));
}

#[test]
fn ttm_allocations_go_through_the_device() {
    let mut dev = NvidiaDevice::new().unwrap();
    assert!(dev.ttm().is_none());
    dev.init_ttm().unwrap();
    let h = dev.ttm_mut().unwrap().allocate(4096, TtmPlacement::Vram, TtmFlags::empty()).unwrap();
    assert_eq!(h, 1);
    assert_eq!(dev.ttm().unwrap().get(h).unwrap().gpu_addr, 0);
}
