use redox_drivers::nvme_driver::config::{
    flag_value, io_queue_count, io_queue_count_for, parse_config, scheduler_from_lowercase,
    DriverConfig, IoSchedulerType,
};
use redox_drivers::nvme_driver::queue::{
    aggregate_stats, CompletionEntry, CompletionInfo, IoQueue, IoQueueManager, PendingCommand,
    QueuePair, QueueStats, QueueStatsSnapshot, MAX_QUEUE_DEPTH,
};
use redox_drivers::nvme_driver::scheme::{
    namespace_info, IoTarget, NamespaceStat, NvmeScheme, EAGAIN, EBADF, EINVAL, EIO, EISDIR,
    ENODEV, ENOENT, ENOSYS, SEEK_CUR, SEEK_END, SEEK_SET,
};
use redox_drivers::nvme_driver::stats::{
    latency_bucket_bound, LatencyPercentiles, LatencyTracker, PerformanceStats,
};
use std::time::{Duration, Instant};

fn pending(tag: u32, bytes: usize, is_write: bool) -> PendingCommand<u32> {
    PendingCommand { payload: tag, submitted_at: Instant::now(), is_write, bytes }
}

#[test]
fn default_config_values() {
    let c = DriverConfig::default();
    assert_eq!(c.num_queues, 0);
    assert_eq!(c.queue_depth, 1024);
    assert!(!c.polling_mode);
    assert_eq!(c.poll_interval_us, 10);
    assert!(c.zero_copy);
    assert!(c.numa_aware);
    assert_eq!(c.max_concurrent_cmds, 256);
    assert_eq!(c.scheduler, IoSchedulerType::CpuAffinity);
}

#[test]
fn parse_config_reads_each_setting() {
    let c = parse_config(Some("8"), Some("+256"), Some("TRUE"), Some("25"), Some("0"), Some("Deadline"));
    assert_eq!(c.num_queues, 8);
    assert_eq!(c.queue_depth, 256);
    assert!(c.polling_mode);
    assert_eq!(c.poll_interval_us, 25);
    assert!(!c.zero_copy);
    assert_eq!(c.scheduler, IoSchedulerType::Deadline);
    assert_eq!(c.max_concurrent_cmds, 256);
}

#[test]
fn parse_config_keeps_defaults_for_bad_or_missing_settings() {
    let c = parse_config(Some("-1"), Some("70000"), Some("yes"), Some(""), None, Some("fastest"));
    assert_eq!(c, DriverConfig::default());
    let c = parse_config(None, None, Some("1"), None, None, Some("cpu"));
    assert!(c.polling_mode);
    assert_eq!(c.scheduler, IoSchedulerType::CpuAffinity);
    assert_eq!(parse_config(None, None, None, None, None, Some("NONE")).scheduler, IoSchedulerType::Direct);
    assert_eq!(parse_config(None, None, None, None, None, Some("roundrobin")).scheduler, IoSchedulerType::RoundRobin);
    assert_eq!(parse_config(None, None, None, None, None, Some("Priority")).scheduler, IoSchedulerType::Priority);
}

#[test]
fn flag_and_scheduler_names() {
    assert!(flag_value("1", "1"));
    assert!(flag_value("True", "true"));
    assert!(!flag_value("0", "0"));
    assert!(!flag_value("on", "on"));
    assert_eq!(scheduler_from_lowercase("none"), IoSchedulerType::Direct);
    assert_eq!(scheduler_from_lowercase("cpuaffinity"), IoSchedulerType::CpuAffinity);
    assert_eq!(scheduler_from_lowercase("deadline"), IoSchedulerType::Deadline);
    assert_eq!(scheduler_from_lowercase("Deadline"), IoSchedulerType::CpuAffinity);
}

#[test]
fn queue_count_follows_config_and_controller_limit() {
    let auto = DriverConfig::default();
    assert_eq!(io_queue_count_for(&auto, 8, 4), 4);
    assert_eq!(io_queue_count_for(&auto, 2, 4), 2);
    let fixed = DriverConfig { num_queues: 6, ..DriverConfig::default() };
    assert_eq!(io_queue_count_for(&fixed, 64, 16), 6);
    assert_eq!(io_queue_count_for(&fixed, 64, 3), 3);
    assert_eq!(io_queue_count(&fixed, 16), 6);
    let n = io_queue_count(&auto, 1024);
    assert!(n >= 1 && n <= 1024);
}

#[test]
fn submit_read_fills_the_ring_and_rings_the_doorbell() {
    let mut q: QueuePair<u32> = QueuePair::new(1, 4, 4, 8);
    assert!(q.has_space());
    assert_eq!(q.submit_read(1, 100, 8, 0x5000, 4096), Some(0));
    let cmd = q.sq_entry(0);
    assert_eq!((cmd.opcode, cmd.command_id, cmd.ns_id, cmd.lba, cmd.blocks, cmd.prp1, cmd.prp2), (2, 0, 1, 100, 7, 0x5000, 0));
    assert_eq!(q.sq_doorbell(), 1);
    assert_eq!(q.queue_depth(), 1);
    assert_eq!(q.submit_write(1, 200, 1, 0x6000, 512), Some(1));
    assert_eq!(q.sq_entry(1).opcode, 1);
    assert_eq!(q.sq_entry(1).blocks, 0);
    assert_eq!(q.submit_flush(1), Some(2));
    assert_eq!(q.sq_entry(2).opcode, 0);
    // Four slots hold three commands: the ring is full.
    assert_eq!(q.submit_read(1, 0, 1, 0, 512), None);
    assert_eq!(q.queue_depth(), 3);
    assert_eq!(q.get_stats().commands_submitted, 3);
}

#[test]
fn submissions_stop_at_the_queue_depth() {
    let mut q: QueuePair<u32> = QueuePair::new(2, 16, 16, 1);
    assert_eq!(q.submit_read(1, 0, 0, 0, 0), Some(0));
    assert_eq!(q.sq_entry(0).blocks, 0);
    assert!(!q.has_space());
    assert_eq!(q.submit_write(1, 0, 1, 0, 512), None);
    // A flush is not held back by the depth.
    assert_eq!(q.submit_flush(1), Some(1));
}

#[test]
fn admin_queue_is_queue_zero_with_depth_32() {
    let q: QueuePair<u32> = QueuePair::new_admin(64, 64);
    assert_eq!(q.id, 0);
    assert_eq!(q.queue_depth(), 0);
    assert_eq!(MAX_QUEUE_DEPTH, 4096);
}

#[test]
fn polling_follows_the_phase_tag() {
    let mut q: QueuePair<u32> = QueuePair::new(1, 4, 2, 8);
    let id = q.submit_read(1, 0, 1, 0, 512).unwrap();
    q.add_pending(id, pending(77, 512, false));
    // An entry with the old phase is not new.
    assert!(q.poll_completion(CompletionEntry { command_id: id, status: 0, cdw0: 0 }).is_none());
    let c = q.poll_completion(CompletionEntry { command_id: id, status: 1, cdw0: 9 }).unwrap();
    assert_eq!((c.command_id, c.status, c.result, c.bytes, c.is_write), (id, 0, 9, 512, false));
    assert_eq!(q.cq_head(), 1);
    assert_eq!(q.cq_doorbell(), 1);
    assert_eq!(q.queue_depth(), 0);
    let p = q.complete_command(id).unwrap();
    assert_eq!(p.payload, 77);
    assert!(q.complete_command(id).is_none());
    // Status bits above the phase tag are the status.
    let c = q.poll_completion(CompletionEntry { command_id: 5, status: 0b101, cdw0: 0 }).unwrap();
    assert_eq!(c.status, 2);
    assert_eq!(c.bytes, 0);
    // The head wrapped: the expected phase flipped to 0.
    assert_eq!(q.cq_head(), 0);
    assert!(q.poll_completion(CompletionEntry { command_id: 6, status: 1, cdw0: 0 }).is_none());
    assert!(q.poll_completion(CompletionEntry { command_id: 6, status: 0, cdw0: 0 }).is_some());
    assert_eq!(q.get_stats().commands_completed, 3);
}

#[test]
fn queue_stats_average_latency() {
    let q: QueuePair<u32> = QueuePair::new(1, 4, 4, 8);
    let s = q.get_stats();
    assert_eq!(s.avg_latency_ns, 0);
    assert_eq!(s.commands_in_flight, 0);
    let zero = QueueStats::default();
    assert_eq!(zero.commands_completed, 0);
}

#[test]
fn io_queue_trait_forwards() {
    let mut q: QueuePair<u32> = QueuePair::new(1, 8, 8, 8);
    assert_eq!(IoQueue::read(&mut q, 1, 0, 1, 0, 512), Some(0));
    assert_eq!(IoQueue::write(&mut q, 1, 1, 1, 0, 512), Some(1));
    assert_eq!(q.depth(), 2);
    assert!(q.poll(CompletionEntry { command_id: 0, status: 1, cdw0: 0 }).is_some());
    assert_eq!(q.depth(), 1);
}

fn snap(sub: u64, avg: u64, max: u64, min: u64) -> QueueStatsSnapshot {
    QueueStatsSnapshot {
        commands_submitted: sub,
        commands_completed: sub,
        commands_in_flight: 1,
        bytes_read: 10,
        bytes_written: 20,
        avg_latency_ns: avg,
        max_latency_ns: max,
        min_latency_ns: min,
    }
}

#[test]
fn aggregate_sums_counters_and_averages_latency() {
    let t = aggregate_stats(&vec![snap(3, 100, 500, 50), snap(5, 301, 200, 20)]);
    assert_eq!(t.commands_submitted, 8);
    assert_eq!(t.commands_in_flight, 2);
    assert_eq!(t.bytes_read, 20);
    assert_eq!(t.bytes_written, 40);
    assert_eq!(t.avg_latency_ns, 200);
    assert_eq!(t.max_latency_ns, 500);
    assert_eq!(t.min_latency_ns, 20);
    let empty = aggregate_stats(&Vec::new());
    assert_eq!(empty.min_latency_ns, u64::MAX);
    assert_eq!(empty.avg_latency_ns, 0);
}

#[test]
fn manager_selects_queues_in_turn() {
    let queues: Vec<QueuePair<u32>> = vec![QueuePair::new(0, 4, 4, 4), QueuePair::new(1, 4, 4, 4)];
    let mut m = IoQueueManager::new(queues);
    assert_eq!(m.num_queues(), 2);
    assert_eq!(m.select_queue_rr(), 0);
    assert_eq!(m.select_queue_rr(), 1);
    assert_eq!(m.select_queue_rr(), 0);
    assert_eq!(m.get_queue(1).unwrap().id, 1);
    assert!(m.get_queue(2).is_none());
    assert_eq!(m.get_all_stats().len(), 2);
    assert_eq!(m.get_aggregate_stats().commands_submitted, 0);
}

fn scheme(config: DriverConfig) -> NvmeScheme<u32> {
    let ns = vec![
        namespace_info(1, 1 << 30, 512, (1 << 30) / 512, None, Some(65536)),
        namespace_info(3, 4096 * 100, 4096, 100, Some(8192), None),
    ];
    let queues = vec![QueuePair::new(0, 8, 8, 4), QueuePair::new(1, 8, 8, 4)];
    NvmeScheme::new(9, ns, queues, QueuePair::new_admin(8, 8), config)
}

#[test]
fn namespace_info_defaults_sizes() {
    let n = namespace_info(1, 1024, 512, 2, None, None);
    assert_eq!(n.optimal_write_size, 128 * 1024);
    assert_eq!(n.max_transfer_size, 1024 * 1024);
    let n = namespace_info(1, 1024, 512, 2, Some(4096), Some(8192));
    assert_eq!((n.optimal_write_size, n.max_transfer_size), (4096, 8192));
}

#[test]
fn open_names_a_namespace_by_path() {
    let mut s = scheme(DriverConfig::default());
    assert_eq!(s.handle_open("", 0), Err(EISDIR));
    assert_eq!(s.handle_open("//", 0), Err(EISDIR));
    assert_eq!(s.handle_open("abc", 0), Err(ENOENT));
    assert_eq!(s.handle_open("99999999999", 0), Err(ENOENT));
    assert_eq!(s.handle_open("2", 0), Err(ENODEV));
    assert_eq!(s.handle_open("/1", 0), Ok(1));
    assert_eq!(s.handle_open("3/extra", 0), Ok(2));
    assert_eq!(s.pci_handle(), 9);
    assert_eq!(s.get_queue_irq(0), 1);
    assert_eq!(s.get_queue_irq(65535), 0);
}

#[test]
fn io_target_computes_blocks_and_queue() {
    let mut s = scheme(DriverConfig::default());
    let h1 = s.handle_open("1", 0).unwrap() as u64;
    let h2 = s.handle_open("3", 0).unwrap() as u64;
    assert_eq!(s.io_target(h1, 4096, 1000), Ok(IoTarget { queue_id: 0, ns_id: 1, lba: 8, blocks: 2 }));
    assert_eq!(s.io_target(h2, 8192, 4096), Ok(IoTarget { queue_id: 1, ns_id: 3, lba: 2, blocks: 1 }));
    assert_eq!(s.io_target(42, 0, 0), Err(EBADF));
    let mut rr = scheme(DriverConfig { scheduler: IoSchedulerType::RoundRobin, ..DriverConfig::default() });
    let h = rr.handle_open("1", 0).unwrap() as u64;
    // Opening used turn 0; I/O takes turns 1 and 2.
    assert_eq!(rr.io_target(h, 0, 512).unwrap().queue_id, 1);
    assert_eq!(rr.io_target(h, 0, 512).unwrap().queue_id, 0);
}

#[test]
fn submit_and_finish_an_io() {
    let mut s = scheme(DriverConfig::default());
    let h = s.handle_open("1", 0).unwrap() as u64;
    let t = s.io_target(h, 0, 4096).unwrap();
    assert!(s.zero_copy_requested(0x1001));
    assert!(!s.zero_copy_requested(0x1000));
    let id = s.submit_io(t, 0x1000, 4096, false, 5).ok().unwrap();
    assert_eq!(id, 0);
    let info = CompletionInfo { command_id: id, status: 0, result: 0, submitted_at: Instant::now(), is_write: false, bytes: 4096 };
    assert_eq!(s.finish_completion(t.queue_id, &info), Some((5, Ok(4096))));
    assert_eq!(s.finish_completion(t.queue_id, &info), None);
    let id = s.submit_io(t, 0x1000, 4096, true, 6).ok().unwrap();
    let failed = CompletionInfo { command_id: id, status: 3, result: 0, submitted_at: Instant::now(), is_write: true, bytes: 4096 };
    assert_eq!(s.finish_completion(t.queue_id, &failed), Some((6, Err(EIO))));
}

#[test]
fn a_full_queue_answers_eagain() {
    let mut s = scheme(DriverConfig::default());
    let h = s.handle_open("1", 0).unwrap() as u64;
    let t = s.io_target(h, 0, 512).unwrap();
    for i in 0..4 {
        assert!(s.submit_io(t, 0, 512, false, i).is_ok());
    }
    match s.submit_io(t, 0, 512, false, 99) {
        Err((e, payload)) => {
            assert_eq!(e, EAGAIN);
            assert_eq!(payload, 99);
        }
        Ok(_) => panic!("queue at its depth took a command"),
    }
}

#[test]
fn seek_stat_path_sync_and_close() {
    let mut s = scheme(DriverConfig::default());
    let h = s.handle_open("1", 0).unwrap() as u64;
    assert_eq!(s.handle_lseek(h, 100, SEEK_SET as usize), Ok(100));
    assert_eq!(s.handle_lseek(h, 5, SEEK_CUR as usize), Ok(105));
    assert_eq!(s.handle_lseek(h, -10, SEEK_END as usize), Ok((1usize << 30) - 10));
    assert_eq!(s.handle_lseek(h, 0, 7), Err(EINVAL));
    assert_eq!(s.handle_lseek(77, 0, 0), Err(EBADF));
    assert_eq!(
        s.handle_fstat(h),
        Ok(NamespaceStat { size: 1 << 30, block_size: 512, blocks: (1 << 30) / 512 })
    );
    let mut buf = [0u8; 16];
    assert_eq!(s.handle_fpath(h, &mut buf), Ok(7));
    assert_eq!(&buf[..7], b"nvme:1/");
    let mut small = [9u8; 3];
    assert_eq!(s.handle_fpath(h, &mut small), Ok(3));
    assert_eq!(&small, b"nvm");
    assert_eq!(s.handle_fsync(h, 1), Ok(0));
    assert_eq!(s.handle_fsync(55, 1), Err(EBADF));
    assert_eq!(s.handle_close(h), Ok(0));
    assert_eq!(s.handle_close(h), Err(EBADF));
    assert_eq!(s.handle_fstat(h), Err(EBADF));
    assert_eq!(s.unsupported(), ENOSYS);
}

#[test]
fn histogram_buckets_and_percentiles() {
    assert_eq!(latency_bucket_bound(0), 1_000);
    assert_eq!(latency_bucket_bound(9), 512_000);
    assert_eq!(latency_bucket_bound(10), 1_000_000);
    assert_eq!(latency_bucket_bound(14), 16_000_000);
    assert_eq!(latency_bucket_bound(15), u64::MAX);
    let mut s = PerformanceStats::new();
    assert_eq!(s.calculate_percentiles(), (0, 0, 0));
    for _ in 0..100 {
        s.record_io_submit(4096, false);
        s.record_io_complete_ns(4096, false, 7_000);
    }
    assert_eq!(s.latency_histogram[3], 100);
    assert_eq!(s.calculate_percentiles(), (8_000, 8_000, 8_000));
    s.record_io_complete_ns(512, true, 20_000_000);
    assert_eq!(s.latency_histogram[15], 1);
    let r = s.latency_report();
    assert_eq!(r.total_commands, 101);
    assert_eq!(r.min_latency_ns, 7_000);
    assert_eq!(r.max_latency_ns, 20_000_000);
    assert_eq!(r.total_bytes, 409_600);
    assert_eq!(r.avg_latency_ns, (700_000 + 20_000_000) / 101);
    assert_eq!(r.max_queue_depth, 1);
}

#[test]
fn a_single_sample_puts_every_percentile_in_the_first_bucket() {
    let mut s = PerformanceStats::new();
    s.record_io_complete_ns(1, false, 1_500);
    // With one sample every threshold rounds down to 0, met at bucket 0.
    assert_eq!(s.calculate_percentiles(), (1_000, 1_000, 1_000));
}

#[test]
fn counters_reset_and_batches() {
    let mut s = PerformanceStats::new();
    s.record_io_submit(100, true);
    s.record_error();
    s.record_timeout();
    s.record_batch(4, Duration::from_micros(3));
    s.record_completions(2, Duration::from_nanos(10));
    assert_eq!(s.write_bytes, 100);
    assert_eq!(s.errors, 1);
    assert_eq!(s.timeouts, 1);
    assert_eq!(s.current_queue_depth, 0);
    assert_eq!(s.batch_count, 2);
    assert_eq!(s.batch_total_size, 6);
    assert_eq!(s.batch_latency_ns, 3_010);
    s.record_io_complete(100, true, Duration::from_micros(2));
    assert_eq!(s.write_ops, 1);
    assert_eq!(s.latency_histogram[1], 1);
    s.reset();
    assert_eq!((s.write_bytes, s.errors, s.timeouts, s.write_ops), (0, 0, 0, 0));
    assert_eq!(s.min_latency_ns, u64::MAX);
    assert_eq!(s.batch_count, 2);
    assert_eq!(s.latency_report().min_latency_ns, 0);
}

#[test]
fn latency_tracker_percentiles() {
    let mut t = LatencyTracker::new(4);
    assert_eq!(t.percentiles(), LatencyPercentiles::default());
    t.record_at(5, 0);
    t.record_at(1, 0);
    t.record_at(3, 0);
    let p = t.percentiles();
    assert_eq!(p, LatencyPercentiles { min: 1, max: 5, avg: 3, p50: 3, p90: 5, p99: 5, p999: 5 });
    t.record_at(9, 0);
    // Full: the sample at 6 % 4 = 2 (the 3) is replaced.
    t.record_at(2, 6);
    let p = t.percentiles();
    assert_eq!(p, LatencyPercentiles { min: 1, max: 9, avg: 4, p50: 5, p90: 9, p99: 9, p999: 9 });
    t.record(100);
    assert_eq!(t.percentiles().max, 100);
}

#[test]
fn io_completion_latency_is_recorded_in_nanoseconds() {
    let mut s = PerformanceStats::new();
    s.record_io_complete(1, false, Duration::from_nanos(1_500));
    assert_eq!(s.total_latency_ns, 1_500);
    assert_eq!(s.min_latency_ns, 1_500);
    assert_eq!(s.max_latency_ns, 1_500);
    s.record_batch(1, Duration::from_nanos(7));
    assert_eq!(s.batch_latency_ns, 7);
}
