use redox_drivers::nvme_driver::io_scheduler::{
    CpuAffinityScheduler, DeadlineScheduler, IoBatch, IoPriority, IoRequest, IoScheduler, IoType,
    NoopScheduler, PriorityScheduler, RequestMerger, RoundRobinScheduler, take_expired_at,
};
use std::time::{Duration, Instant};

fn ids(v: &[IoRequest]) -> Vec<u64> {
    v.iter().map(|r| r.id).collect()
}

#[test]
fn read_and_write_requests_start_normal_without_deadline() {
    let r = IoRequest::read(7, 1, 100, 8, 0x1000, 4096);
    assert_eq!(r.id, 7);
    assert_eq!(r.io_type, IoType::Read);
    assert_eq!(r.priority, IoPriority::Normal);
    assert!(r.deadline.is_none());
    assert_eq!((r.ns_id, r.lba, r.blocks, r.data, r.size), (1, 100, 8, 0x1000, 4096));
    assert!(r.queue_hint.is_none());
    let w = IoRequest::write(8, 2, 5, 1, 0x2000, 512);
    assert_eq!(w.io_type, IoType::Write);
    assert_eq!(w.ns_id, 2);
}

#[test]
fn request_builders_set_one_field() {
    let r = IoRequest::read(1, 1, 0, 1, 0, 512)
        .with_priority(IoPriority::High)
        .with_queue_hint(3);
    assert_eq!(r.priority, IoPriority::High);
    assert_eq!(r.queue_hint, Some(3));
    assert_eq!(r.lba, 0);
    let d = IoRequest::read(2, 1, 9, 1, 0, 512).with_deadline(Duration::from_secs(5));
    assert!(d.deadline.is_some());
    assert!(d.deadline.unwrap() > d.queued_at);
    assert_eq!(d.lba, 9);
}

#[test]
fn priority_levels_are_ordered() {
    assert_eq!(IoPriority::Background.level(), 0);
    assert_eq!(IoPriority::Normal.level(), 1);
    assert_eq!(IoPriority::High.level(), 2);
    assert_eq!(IoPriority::Realtime.level(), 3);
    assert_eq!(IoPriority::default(), IoPriority::Normal);
}

#[test]
fn noop_scheduler_holds_nothing() {
    let mut s = NoopScheduler;
    s.submit(IoRequest::read(1, 1, 0, 1, 0, 512));
    assert!(s.next().is_none());
    assert_eq!(s.pending_count(), 0);
    assert!(s.check_deadlines().is_empty());
}

#[test]
fn round_robin_spreads_and_serves_in_turn() {
    let mut s = RoundRobinScheduler::new(3);
    for id in 1..=3 {
        s.submit(IoRequest::read(id, 1, id, 1, 0, 512));
    }
    assert_eq!(s.pending_count(), 3);
    let order: Vec<u64> = (0..3).map(|_| s.next().unwrap().id).collect();
    assert_eq!(order, vec![1, 2, 3]);
    assert!(s.next().is_none());
    assert_eq!(s.pending_count(), 0);
}

#[test]
fn round_robin_skips_empty_queues() {
    let mut s = RoundRobinScheduler::new(4);
    s.submit(IoRequest::read(10, 1, 0, 1, 0, 512));
    // The request went to queue 0; the turn is now at queue 1.
    assert_eq!(s.next().unwrap().id, 10);
    assert!(s.next().is_none());
}

#[test]
fn round_robin_takes_out_expired_requests() {
    let mut s = RoundRobinScheduler::new(2);
    s.submit(IoRequest::read(1, 1, 0, 1, 0, 512));
    s.submit(IoRequest::read(2, 1, 0, 1, 0, 512).with_deadline(Duration::from_nanos(0)));
    let start = Instant::now();
    while Instant::now() <= start {}
    let expired = s.check_deadlines();
    assert_eq!(ids(&expired), vec![2]);
    assert_eq!(s.pending_count(), 1);
}

#[test]
fn cpu_affinity_uses_hint_then_cpu_queue_and_steals() {
    let mut s = CpuAffinityScheduler::new(4);
    s.set_current_cpu(6);
    assert_eq!(s.current_cpu_queue(), 2);
    s.submit(IoRequest::read(1, 1, 0, 1, 0, 512).with_queue_hint(5));
    s.submit(IoRequest::read(2, 1, 0, 1, 0, 512));
    assert_eq!(s.pending_count(), 2);
    // Own queue (2) first, then the queue after it that holds work (1, via 3 and 0).
    assert_eq!(s.next().unwrap().id, 2);
    assert_eq!(s.next().unwrap().id, 1);
    assert!(s.next().is_none());
}

#[test]
fn priority_scheduler_serves_high_then_normal_then_background() {
    let mut s = PriorityScheduler::new();
    s.submit(IoRequest::read(1, 1, 0, 1, 0, 512).with_priority(IoPriority::Background));
    s.submit(IoRequest::read(2, 1, 0, 1, 0, 512));
    s.submit(IoRequest::read(3, 1, 0, 1, 0, 512).with_priority(IoPriority::Realtime));
    s.submit(IoRequest::read(4, 1, 0, 1, 0, 512).with_priority(IoPriority::High));
    assert_eq!(s.pending_count(), 4);
    let order: Vec<u64> = (0..4).map(|_| s.next().unwrap().id).collect();
    assert_eq!(order, vec![3, 4, 2, 1]);
    assert!(s.next().is_none());
    assert!(s.check_deadlines().is_empty());
}

#[test]
fn deadline_scheduler_serves_earliest_deadline_first() {
    let mut s = DeadlineScheduler::new(Duration::from_secs(60), 16);
    s.submit(IoRequest::read(1, 1, 0, 1, 0, 512));
    s.submit(IoRequest::read(2, 1, 0, 1, 0, 512).with_deadline(Duration::from_millis(10)));
    s.submit(IoRequest::read(3, 1, 0, 1, 0, 512).with_deadline(Duration::from_secs(1)));
    assert_eq!(s.pending_count(), 3);
    assert_eq!(s.next().unwrap().id, 2);
    assert_eq!(s.next().unwrap().id, 3);
    let last = s.next().unwrap();
    assert_eq!(last.id, 1);
    assert!(last.deadline.is_some());
    assert!(s.next().is_none());
}

#[test]
fn deadline_scheduler_takes_out_expired_requests() {
    let mut s = DeadlineScheduler::new(Duration::from_nanos(0), 16);
    s.submit(IoRequest::read(1, 1, 0, 1, 0, 512));
    s.submit(IoRequest::read(2, 1, 0, 1, 0, 512).with_deadline(Duration::from_secs(60)));
    let start = Instant::now();
    while Instant::now() <= start {}
    let expired = s.check_deadlines();
    assert_eq!(ids(&expired), vec![1]);
    assert_eq!(s.pending_count(), 1);
    assert_eq!(s.next().unwrap().id, 2);
}

#[test]
fn batch_accepts_only_adjacent_same_direction_within_size() {
    let first = IoRequest::read(1, 1, 100, 8, 0, 4096);
    let mut batch = IoBatch::new(first);
    assert_eq!((batch.start_lba, batch.total_blocks, batch.total_size), (100, 8, 4096));
    let next = IoRequest::read(2, 1, 108, 8, 0, 4096);
    assert!(batch.try_add(&next, 8192));
    assert!(!batch.try_add(&next, 8191));
    let gap = IoRequest::read(3, 1, 109, 8, 0, 4096);
    assert!(!batch.try_add(&gap, 1 << 20));
    let write = IoRequest::write(4, 1, 108, 8, 0, 4096);
    assert!(!batch.try_add(&write, 1 << 20));
    batch.add(next);
    assert_eq!(batch.requests.len(), 2);
    assert_eq!((batch.total_blocks, batch.total_size), (16, 8192));
}

#[test]
fn merger_sorts_and_groups_adjacent_requests() {
    let merger = RequestMerger::new(1 << 20, 32);
    let requests = vec![
        IoRequest::read(1, 1, 16, 8, 0, 4096),
        IoRequest::read(2, 1, 0, 8, 0, 4096),
        IoRequest::read(3, 1, 8, 8, 0, 4096),
        IoRequest::read(4, 1, 100, 8, 0, 4096),
        IoRequest::read(5, 2, 0, 8, 0, 4096),
    ];
    let batches = merger.merge(requests);
    assert_eq!(batches.len(), 3);
    assert_eq!(ids(&batches[0].requests), vec![2, 3, 1]);
    assert_eq!((batches[0].start_lba, batches[0].total_blocks, batches[0].total_size), (0, 24, 12288));
    assert_eq!(ids(&batches[1].requests), vec![4]);
    assert_eq!(ids(&batches[2].requests), vec![5]);
}

#[test]
fn merger_respects_request_and_size_limits() {
    let by_count = RequestMerger::new(1 << 20, 2);
    let requests: Vec<IoRequest> = (0..5).map(|i| IoRequest::read(i, 1, i * 8, 8, 0, 4096)).collect();
    let batches = by_count.merge(requests);
    let sizes: Vec<usize> = batches.iter().map(|b| b.requests.len()).collect();
    assert_eq!(sizes, vec![2, 2, 1]);

    let by_size = RequestMerger::new(8192, 32);
    let requests: Vec<IoRequest> = (0..3).map(|i| IoRequest::read(i, 1, i * 8, 8, 0, 4096)).collect();
    let batches = by_size.merge(requests);
    let sizes: Vec<usize> = batches.iter().map(|b| b.requests.len()).collect();
    assert_eq!(sizes, vec![2, 1]);

    assert!(by_size.merge(Vec::new()).is_empty());
}

#[test]
fn merger_keeps_equal_keys_in_submission_order() {
    let merger = RequestMerger::new(1 << 20, 32);
    let requests = vec![
        IoRequest::write(1, 1, 0, 8, 0, 4096),
        IoRequest::read(2, 1, 0, 8, 0, 4096),
    ];
    let batches = merger.merge(requests);
    assert_eq!(batches.len(), 2);
    assert_eq!(batches[0].io_type, IoType::Write);
    assert_eq!(batches[1].io_type, IoType::Read);
}

#[test]
fn deadlines_from_an_instant_and_expiry_at_a_reading() {
    let t0 = std::time::Instant::now();
    let soon = std::time::Duration::from_millis(0);
    let late = std::time::Duration::from_secs(100);
    let a = IoRequest::read(1, 1, 0, 1, 0, 512).with_deadline_from(t0, soon);
    assert_eq!(a.deadline, Some(t0));
    let b = IoRequest::read(2, 1, 8, 1, 0, 512).with_deadline_from(t0, late);
    assert_eq!(b.deadline, Some(t0 + late));
    assert_eq!(b.id, 2);
    let c = IoRequest::write(3, 1, 16, 1, 0, 512);
    let d = IoRequest::write(4, 1, 24, 1, 0, 512).with_deadline_from(t0, soon);
    let mut qs = vec![
        std::collections::VecDeque::from(vec![a, b]),
        std::collections::VecDeque::from(vec![c, d]),
    ];
    let reading = t0 + std::time::Duration::from_millis(1);
    let v = take_expired_at(&mut qs, reading);
    assert_eq!(v.iter().map(|r| r.id).collect::<Vec<_>>(), vec![1, 4]);
    assert_eq!(qs[0].iter().map(|r| r.id).collect::<Vec<_>>(), vec![2]);
    assert_eq!(qs[1].iter().map(|r| r.id).collect::<Vec<_>>(), vec![3]);
    let w = take_expired_at(&mut qs, t0);
    assert!(w.is_empty());
    let e = IoRequest::read(5, 1, 0, 1, 0, 512).with_deadline(late);
    assert!(e.deadline.unwrap() > t0);
}

#[test]
fn deadline_scheduler_dispatches_earliest_deadline_first() {
    let t = Instant::now();
    let mut s = DeadlineScheduler::new(Duration::from_secs(60), 16);
    s.submit(IoRequest::read(1, 1, 0, 1, 0, 512).with_deadline_from(t, Duration::from_millis(30)));
    s.submit(IoRequest::read(2, 1, 0, 1, 0, 512).with_deadline_from(t, Duration::from_millis(10)));
    s.submit(IoRequest::read(3, 1, 0, 1, 0, 512).with_deadline_from(t, Duration::from_millis(20)));
    assert_eq!(s.next().unwrap().id, 2);
    assert_eq!(s.next().unwrap().id, 3);
    assert_eq!(s.next().unwrap().id, 1);
}

#[test]
fn expired_requests_come_out_in_deadline_order() {
    let t = Instant::now() - Duration::from_secs(10);
    let mut s = DeadlineScheduler::new(Duration::from_secs(60), 16);
    s.submit(IoRequest::read(1, 1, 0, 1, 0, 512).with_deadline_from(t, Duration::from_millis(300)));
    s.submit(IoRequest::read(2, 1, 0, 1, 0, 512).with_deadline_from(t, Duration::from_millis(100)));
    s.submit(IoRequest::read(3, 1, 0, 1, 0, 512).with_deadline_from(t, Duration::from_secs(3600)));
    s.submit(IoRequest::read(4, 1, 0, 1, 0, 512).with_deadline_from(t, Duration::from_millis(200)));
    assert_eq!(ids(&s.check_deadlines()), vec![2, 4, 1]);
    assert_eq!(s.pending_count(), 1);
}
