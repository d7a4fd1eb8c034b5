use redox_drivers::net::ping::{checksum, echo_checksum_v6, echo_reply_matches, echo_request, ipv4_packet};
use redox_drivers::net::scheme::{
    handle_for_path, may_send, path_of, read_from, read_metrics_from, NetHandle, NetworkHandles, EACCES, EBADF, EINVAL,
    MODE_FILE,
};
use redox_drivers::net::virtio_bbr::{
    can_send, check_full_bw_reached, estimate_bandwidth, on_congestion_signal, send_quantum, BbrModel, BbrState,
    ProbeBwPhase,
};
use redox_drivers::net::bbr_model::BbrPath;
use redox_drivers::net::bbr_model::{check_startup_full_bw, next_cycle_index, probe_rtt_due, restored_cwnd, update_round, ProbeRttTimer};

fn reference_sum(parts: &[&[u8]]) -> u32 {
    let mut sum: u32 = 0;
    for p in parts {
        let mut i = 0;
        while i < p.len() {
            let hi = p[i] as u32;
            let lo = if i + 1 < p.len() { p[i + 1] as u32 } else { 0 };
            sum += hi * 256 + lo;
            i += 2;
        }
    }
    sum
}

fn reference_complement(mut sum: u32) -> u16 {
    while sum >> 16 != 0 {
        sum = (sum & 0xFFFF) + (sum >> 16);
    }
    !(sum as u16)
}

#[test]
fn internet_checksum_of_known_header() {
    let header = [
        0x45u8, 0x00, 0x00, 0x73, 0x00, 0x00, 0x40, 0x00, 0x40, 0x11, 0x00, 0x00, 0xc0, 0xa8, 0x00, 0x01, 0xc0,
        0xa8, 0x00, 0xc7,
    ];
    assert_eq!(checksum(&header), 0xb861);
    assert_eq!(checksum(&[]), 0xffff);
    assert_eq!(checksum(&[0xff, 0xff, 0x00, 0x01]), 0xfffe);
}

#[test]
fn echo_checksum_pads_odd_byte_and_counts_pseudo_header() {
    let src = [0xfeu8, 0x80, 0, 0, 0, 0, 0, 0, 0, 0, 0, 0, 0, 0, 0, 1];
    let dst = [0xfeu8, 0x80, 0, 0, 0, 0, 0, 0, 0, 0, 0, 0, 0, 0, 0, 2];
    let packet = [128u8, 0, 0, 0, 0x12, 0x34, 0, 1, 0xab];
    let len = (packet.len() as u32).to_be_bytes();
    let expected = reference_complement(reference_sum(&[&src, &dst, &len[..2], &len[2..], &[0, 58], &packet]));
    assert_eq!(echo_checksum_v6(&src, &dst, &packet), expected);
}

#[test]
fn echo_request_layout() {
    let src = [0xfeu8, 0x80, 0, 0, 0, 0, 0, 0, 0x02, 0, 0, 0xff, 0xfe, 0, 0, 1];
    let dst = [0x20u8, 0x01, 0x0d, 0xb8, 0, 0, 0, 0, 0, 0, 0, 0, 0, 0, 0, 9];
    let p = echo_request(&src, &dst, 0x1234, 7, 300);
    assert_eq!(p.len(), 40 + 8 + 300);
    assert_eq!(&p[0..4], &[0x60, 0, 0, 0]);
    assert_eq!(&p[4..6], &[0x01, 0x34]);
    assert_eq!(p[6], 58);
    assert_eq!(p[7], 64);
    assert_eq!(&p[8..24], &src);
    assert_eq!(&p[24..40], &dst);
    assert_eq!(p[40], 128);
    assert_eq!(p[41], 0);
    assert_eq!(&p[44..48], &[0x34, 0x12, 7, 0]);
    for i in 0..300 {
        assert_eq!(p[48 + i], (i % 256) as u8);
    }
    let mut unsigned = p[40..].to_vec();
    unsigned[2] = 0;
    unsigned[3] = 0;
    let c = echo_checksum_v6(&src, &dst, &unsigned);
    assert_eq!(&p[42..44], &c.to_le_bytes());
}

#[test]
fn echo_reply_is_recognised_by_type_identifier_and_sequence() {
    let mut buf = vec![0u8; 2048];
    buf[40] = 129;
    buf[44] = 0x12;
    buf[45] = 0x34;
    buf[46] = 0;
    buf[47] = 7;
    assert!(echo_reply_matches(&buf, 48, 0x1234, 7));
    assert!(!echo_reply_matches(&buf, 47, 0x1234, 7));
    assert!(!echo_reply_matches(&buf, 48, 0x3412, 7));
    assert!(!echo_reply_matches(&buf, 48, 0x1234, 8));
    buf[40] = 128;
    assert!(!echo_reply_matches(&buf, 100, 0x1234, 7));
}

#[test]
fn ipv4_packet_carries_header_checksum_big_endian() {
    let payload = [8u8, 0, 0, 0, 0, 0, 0, 0, 1, 2];
    let p = ipv4_packet(&[10, 0, 0, 1], &[10, 0, 0, 2], &payload);
    assert_eq!(p.len(), 30);
    assert_eq!(&p[0..4], &[0x45, 0, 30, 0]);
    assert_eq!(&p[8..10], &[64, 1]);
    assert_eq!(&p[12..20], &[10, 0, 0, 1, 10, 0, 0, 2]);
    assert_eq!(&p[20..], &payload);
    let mut header = p[..20].to_vec();
    header[10] = 0;
    header[11] = 0;
    assert_eq!(&p[10..12], &checksum(&header).to_be_bytes());
    assert_eq!(checksum(&p[..20]), 0);
}

#[test]
fn network_handles_open_and_answer() {
    let mut h = NetworkHandles::new();
    assert_eq!(h.open("mac", 1000), Err(EACCES));
    assert_eq!(h.open("nothing", 0), Err(EINVAL));
    assert_eq!(h.open("mac", 0), Ok((1, true)));
    assert_eq!(h.open("", 0), Ok((2, false)));
    assert_eq!(h.open("bbr_raw", 0), Ok((3, true)));
    assert_eq!(h.get(1), Ok(NetHandle::Mac));
    assert_eq!(h.fstat(1), Ok((MODE_FILE | 0o400, 6)));
    assert_eq!(h.fstat(2), Ok((MODE_FILE | 0o700, 0)));
    assert_eq!(h.fstat(3), Ok((MODE_FILE | 0o400, 64)));
    assert_eq!(h.check_write(2), Ok(()));
    assert_eq!(h.check_write(1), Err(EINVAL));
    assert_eq!(h.check_write(9), Err(EBADF));
    let mut buf = [0u8; 32];
    assert_eq!(h.fpath(1, b"network", &mut buf), Ok(11));
    assert_eq!(&buf[..11], b"network:mac");
    let mut small = [0u8; 4];
    assert_eq!(h.fpath(3, b"network", &mut small), Ok(4));
    assert_eq!(&small, b"netw");
    assert_eq!(h.fpath(7, b"network", &mut small), Err(EBADF));
    h.on_close(1);
    assert_eq!(h.get(1), Err(EBADF));
    assert_eq!(h.fstat(1), Err(EBADF));
}

#[test]
fn handle_paths_round_trip() {
    for hd in [
        NetHandle::Data,
        NetHandle::Mac,
        NetHandle::Ipv4,
        NetHandle::Ipv6,
        NetHandle::Ipv6Global,
        NetHandle::Ipv6UniqueLocal,
        NetHandle::Bbr,
        NetHandle::BbrRaw,
    ] {
        assert_eq!(handle_for_path(path_of(hd)), Some(hd));
    }
    assert_eq!(handle_for_path("ipv6_global"), Some(NetHandle::Ipv6Global));
    assert_eq!(handle_for_path("ipv7"), None);
}

#[test]
fn reading_addresses_from_an_offset() {
    let data = [1u8, 2, 3, 4];
    let mut buf = [9u8; 2];
    assert_eq!(read_from(&data, 1, &mut buf), 2);
    assert_eq!(buf, [2, 3]);
    let mut big = [9u8; 6];
    assert_eq!(read_from(&data, 2, &mut big), 2);
    assert_eq!(big, [3, 4, 9, 9, 9, 9]);
    assert_eq!(read_metrics_from(&data, 4, &mut big), 0);
    assert_eq!(read_metrics_from(&data, 0, &mut buf), 2);
    assert_eq!(buf, [1, 2]);
}

#[test]
fn pacing_gate() {
    assert!(may_send(0, 500, 0, 100));
    assert!(!may_send(1000, 500, 599, 100));
    assert!(may_send(1000, 500, 600, 100));
}

#[test]
fn virtio_bbr_integer_steps() {
    assert_eq!(estimate_bandwidth(10000, 50_000_000), 200_000);
    assert_eq!(estimate_bandwidth(10000, 0), 0);
    assert_eq!(check_full_bw_reached(false, 0, 100, 125), (false, 0, 125));
    assert_eq!(check_full_bw_reached(false, 2, 100, 110), (true, 3, 100));
    assert_eq!(check_full_bw_reached(false, 0, 100, 110), (false, 1, 100));
    assert_eq!(check_full_bw_reached(true, 3, 100, 1000), (true, 3, 100));
    assert_eq!(send_quantum(5_000_000), 5000);
    assert_eq!(send_quantum(1000), 1460);
    assert!(can_send(10, 11));
    assert!(!can_send(11, 11));
    assert_eq!(
        on_congestion_signal(BbrState::ProbeBw(ProbeBwPhase::Up), true),
        (BbrState::ProbeBw(ProbeBwPhase::Down), true)
    );
    assert_eq!(on_congestion_signal(BbrState::Startup, true), (BbrState::Startup, false));
    assert_eq!(
        on_congestion_signal(BbrState::ProbeBw(ProbeBwPhase::Up), false),
        (BbrState::ProbeBw(ProbeBwPhase::Up), false)
    );
    let mut m = BbrModel::default();
    assert_eq!(m.btl_bw, 0);
    m.update_max_bw(500, 42);
    assert_eq!((m.max_bw, m.max_inflight, m.btl_bw), (500, 42, 500));
    m.update_max_bw(300, 7);
    assert_eq!((m.max_bw, m.max_inflight, m.btl_bw), (500, 42, 500));
}

#[test]
fn bbr_path_model_tracks_extremes() {
    let mut p = BbrPath::new();
    assert_eq!(p.min_rtt_us(), 0);
    p.update_model(0, 0, 1000);
    assert_eq!(p.btl_bw, 0);
    assert_eq!(p.min_rtt_us, u64::MAX);
    p.update_model(100, 10_000, 1000);
    assert_eq!(p.min_rtt_us(), 10_000);
    assert_eq!(p.min_rtt_stamp_us, 100);
    assert_eq!(p.btl_bw, 100_000);
    p.update_model(200, 20_000, 4000);
    assert_eq!(p.min_rtt_us, 10_000);
    assert_eq!(p.min_rtt_stamp_us, 100);
    assert_eq!(p.btl_bw, 200_000);
    p.update_model(300, 5_000, 100);
    assert_eq!(p.min_rtt_us, 5_000);
    assert_eq!(p.min_rtt_stamp_us, 300);
    assert_eq!(p.btl_bw, 200_000);
    p.update_model(20_000_000, 40_000, 4000);
    assert_eq!(p.btl_bw, 100_000);
    assert_eq!(p.min_rtt_us, 5_000);
}

#[test]
fn bbr_round_probe_rtt_and_cycle_steps() {
    assert_eq!(update_round(100, 50, 3), (100, 4, true));
    assert_eq!(update_round(40, 50, 3), (50, 3, false));
    assert!(probe_rtt_due(false, 5_000_001, 0));
    assert!(!probe_rtt_due(false, 5_000_000, 0));
    assert!(!probe_rtt_due(true, 9_000_000, 0));
    assert!(!probe_rtt_due(false, 10, 20));
    let mut t = ProbeRttTimer::new();
    assert!(!t.step(10_000, 1460, 1000, true));
    assert_eq!(t.done_stamp_us, None);
    assert!(!t.step(5840, 1460, 2000, false));
    assert_eq!(t.done_stamp_us, Some(202_000));
    assert!(!t.round_done);
    assert!(!t.step(0, 1460, 300_000, false));
    assert!(t.step(0, 1460, 300_000, true));
    assert_eq!(next_cycle_index(0), 1);
    assert_eq!(next_cycle_index(7), 0);
    assert_eq!(check_startup_full_bw(false, true, 125, 125, 2, 100), (false, 0, 125));
    assert_eq!(check_startup_full_bw(false, true, 110, 125, 2, 100), (true, 3, 100));
    assert_eq!(check_startup_full_bw(false, false, 110, 125, 2, 100), (false, 2, 100));
    assert_eq!(check_startup_full_bw(true, true, 110, 125, 3, 100), (true, 3, 100));
    assert_eq!(restored_cwnd(10, 20), 20);
    assert_eq!(restored_cwnd(30, 20), 30);
}

#[test]
fn echo_checksum_written_big_endian_checks_out() {
    let src = [0xfeu8, 0x80, 0, 0, 0, 0, 0, 0, 1, 2, 3, 4, 5, 6, 7, 8];
    let dst = [0x20u8, 0x01, 0x0d, 0xb8, 0, 0, 0, 0, 0, 0, 0, 0, 0, 0, 0, 1];
    let mut msg = vec![128u8, 0, 0, 0, 0x12, 0x34, 0, 1, 0xde, 0xad, 0xbe];
    let c = echo_checksum_v6(&src, &dst, &msg);
    assert_eq!(c, echo_checksum_v6(&dst, &src, &msg));
    msg[2..4].copy_from_slice(&c.to_be_bytes());
    assert_eq!(echo_checksum_v6(&src, &dst, &msg), 0);
}

#[test]
fn data_followed_by_its_checksum_checks_out() {
    let data = [0x00u8, 0x01, 0xf2, 0x03];
    let c = checksum(&data);
    assert_eq!(c, 0x0dfb);
    let mut whole = data.to_vec();
    whole.extend_from_slice(&c.to_be_bytes());
    assert_eq!(checksum(&whole), 0);
    assert_eq!(checksum(&[]), 0xffff);
}
