use redox_drivers::net::bbr::{bdp, pacing_delay_us, BbrMetrics, BbrState, WindowedFilter};
use redox_drivers::net::ble_mesh::{BleMeshPacketHeader, BleMeshRoutingEngine};
use redox_drivers::net::ecn::{extract_ecn, EcnFlag};
use redox_drivers::net::gptp::{saturating_sub_i64, GPtpClockSynchronizer};
use redox_drivers::net::ipv6::Ipv6;
use redox_drivers::net::nat_table::{Endpoint, FlowOffloadNatEngine};
use redox_drivers::net::xdp::{FiveTuple, XdpAction, XdpFastPathEngine};

fn metrics() -> BbrMetrics {
    BbrMetrics {
        state: 0,
        btl_bw: 20_000_000,
        min_rtt_us: 500,
        pacing_rate: 57_708_000,
        cwnd: 20_000,
        inflight: 1000,
        delivered: 1000,
        loss_rate_pct: 0,
        ecn_rate_pct: 3,
        probe_bw_cycle: 7,
        full_bw_cnt: 1,
        full_bw_reached: false,
    }
}

#[test]
fn test_pacing_delay_calculation() {
    // 1500 byte packet should take 12us at 1 Gbps (125,000,000 bytes/sec).
    let delay = pacing_delay_us(125_000_000, 1500);
    assert_eq!(delay, 12);
}

#[test]
fn test_metrics_serialization() {
    let metrics = metrics();
    let bytes = metrics.to_bytes();
    let decoded = BbrMetrics::from_bytes(&bytes);

    assert_eq!(decoded.state, metrics.state);
    assert_eq!(decoded.btl_bw, metrics.btl_bw);
    assert_eq!(decoded.pacing_rate, metrics.pacing_rate);
}

#[test]
fn metrics_wire_layout_and_roundtrip() {
    let mut m = metrics();
    m.state = 2;
    m.full_bw_reached = true;
    let b = m.to_bytes();
    assert_eq!(b[0], 2);
    assert_eq!(&b[1..9], &20_000_000u64.to_le_bytes());
    assert_eq!(&b[9..17], &500u64.to_le_bytes());
    assert_eq!((b[49], b[50], b[51], b[52], b[53]), (0, 3, 7, 1, 1));
    assert!(b[54..].iter().all(|&x| x == 0));
    assert_eq!(BbrMetrics::from_bytes(&b), m);
}

#[test]
fn pacing_delay_without_rate_is_zero() {
    assert_eq!(pacing_delay_us(0, 1500), 0);
    assert_eq!(pacing_delay_us(1_000_000, 1), 1);
    assert_eq!(pacing_delay_us(3, u64::MAX), (u64::MAX as u128 * 1_000_000 / 3) as u64);
}

#[test]
fn bdp_has_a_floor_of_four_packets() {
    assert_eq!(bdp(1_000_000, u64::MAX, 1500), 6000);
    assert_eq!(bdp(1_000_000, 0, 1500), 6000);
    assert_eq!(bdp(125_000_000, 1000, 1500), 125_000);
    assert_eq!(bdp(1000, 1000, 1500), 6000);
}

#[test]
fn state_names_and_codes() {
    assert_eq!(BbrState::Startup.name(), "STARTUP");
    assert_eq!(BbrState::ProbeRtt.name(), "PROBE_RTT");
    assert_eq!(BbrState::Drain.code(), 1);
    assert_eq!(BbrState::ProbeBw.code(), 2);
}

#[test]
fn windowed_max_filter_keeps_the_window_extreme() {
    let mut f = WindowedFilter::new(100, true);
    assert_eq!(f.get(), None);
    f.update(0, 10);
    f.update(50, 5);
    assert_eq!(f.get(), Some(10));
    f.update(60, 7);
    assert_eq!(f.get(), Some(10));
    f.update(120, 3);
    assert_eq!(f.get(), Some(7));
    f.update(130, 50);
    assert_eq!(f.get(), Some(50));
    f.reset();
    assert_eq!(f.get(), None);
}

#[test]
fn windowed_min_filter() {
    let mut f = WindowedFilter::new(10, false);
    f.update(0, 40);
    f.update(1, 60);
    assert_eq!(f.get(), Some(40));
    f.update(11, 70);
    assert_eq!(f.get(), Some(60));
}

#[test]
fn ecn_from_low_bits() {
    assert_eq!(EcnFlag::from(0b1111_1100u8), EcnFlag::NotEct);
    assert_eq!(EcnFlag::from(1u8), EcnFlag::Ect1);
    assert_eq!(EcnFlag::from(2u8), EcnFlag::Ect0);
    assert_eq!(EcnFlag::from(7u8), EcnFlag::Ce);
    assert_eq!(EcnFlag::Ce.bits(), 3);
    assert_eq!(EcnFlag::from(EcnFlag::Ect0.bits()), EcnFlag::Ect0);
}

#[test]
fn ecn_of_ipv4_and_ipv6_frames() {
    let mut v4 = vec![0u8; 34];
    v4[12] = 0x08;
    v4[13] = 0x00;
    v4[15] = 0b1011_1011;
    assert_eq!(extract_ecn(&v4), Some(EcnFlag::Ce));
    assert_eq!(extract_ecn(&v4[..33]), None);
    let mut v6 = vec![0u8; 54];
    v6[12] = 0x86;
    v6[13] = 0xDD;
    v6[15] = 0x20;
    assert_eq!(extract_ecn(&v6), Some(EcnFlag::Ect0));
    let mut arp = vec![0u8; 60];
    arp[12] = 0x08;
    arp[13] = 0x06;
    assert_eq!(extract_ecn(&arp), None);
    assert_eq!(extract_ecn(&[0u8; 13]), None);
}

#[test]
fn gptp_delay_and_offset() {
    assert_eq!(saturating_sub_i64(i64::MIN, 1), i64::MIN);
    assert_eq!(saturating_sub_i64(i64::MAX, -1), i64::MAX);
    assert_eq!(saturating_sub_i64(5, 7), -2);
    let mut g = GPtpClockSynchronizer::new();
    // Sync took 110 ns one way, 90 ns back: delay 100, offset 10.
    let (offset, delay) = g.process_hardware_timestamps(1000, 1110, 2000, 2090);
    assert_eq!(delay, 100);
    assert_eq!(offset, 10);
    assert_eq!(g.path_delay_ns, 100);
    assert_eq!(g.current_clock_offset_ns, 10);
    assert_eq!(g.total_sync_messages, 1);
    assert_eq!(g.process_hardware_timestamps(100, 150, 200, 230), (10, 40));
    assert_eq!(g.process_hardware_timestamps(200, 100, 0, 300), (-200, 100));
    assert_eq!(g.path_delay_ns, 100);
    assert_eq!(g.current_clock_offset_ns, -200);
    assert_eq!(g.total_sync_messages, 3);
    assert_eq!(g.process_hardware_timestamps(300, 100, 0, 101), (-151, (-49i64) as u64));
}

#[test]
fn ipv6_link_local_from_mac() {
    let ip = Ipv6::new([0x00, 0x11, 0x22, 0x33, 0x44, 0x55], [1; 16], [2; 16]);
    assert_eq!(
        ip.link_local,
        [0xfe, 0x80, 0, 0, 0, 0, 0, 0, 0x02, 0x11, 0x22, 0xff, 0xfe, 0x33, 0x44, 0x55]
    );
    assert_eq!(ip.global, [1; 16]);
    assert_eq!(ip.unique_local, [2; 16]);
}

#[test]
fn mesh_relays_newer_packets_with_ttl() {
    let mut e = BleMeshRoutingEngine::new();
    let h = BleMeshPacketHeader { src_unicast_addr: 1, dst_unicast_addr: 9, sequence_number: 5, ttl: 3, opcode: 0 };
    assert!(e.process_mesh_packet(h, 2));
    // The same sequence number again is not relayed.
    assert!(!e.process_mesh_packet(h, 2));
    let to_me = BleMeshPacketHeader { dst_unicast_addr: 2, sequence_number: 6, ..h };
    assert!(!e.process_mesh_packet(to_me, 2));
    let last_hop = BleMeshPacketHeader { ttl: 1, sequence_number: 7, ..h };
    assert!(!e.process_mesh_packet(last_hop, 2));
    assert_eq!(e.total_packets_routed, 4);
    assert_eq!(e.total_relayed, 1);
    assert_eq!(e.last_seen_sequence, 5);
}

fn tuple(port: u16) -> FiveTuple {
    FiveTuple { src_ip: 0x0a000001, dst_ip: 0x0a000002, src_port: port, dst_port: 443, protocol: 6 }
}

#[test]
fn nat_translates_registered_mappings_back() {
    let mut nat = FlowOffloadNatEngine::new();
    let inside = Endpoint { ip: 0xc0a80002, port: 5000 };
    let outside = Endpoint { ip: 0x01020304, port: 40000 };
    nat.register_full_cone_mapping(inside, outside);
    assert_eq!(nat.translate_inbound_public(outside), Some(inside));
    assert_eq!(nat.translate_inbound_public(Endpoint { ip: 0x01020304, port: 40001 }), None);
    assert_eq!(nat.total_natted_packets, 1);
    nat.register_flow_offload(tuple(1), 77);
    assert_eq!(nat.check_flow_offload(&tuple(1)), Some(77));
    assert_eq!(nat.check_flow_offload(&tuple(2)), None);
    assert_eq!(nat.total_offloaded_packets, 1);
}

#[test]
fn xdp_drops_blacklisted_and_empty_syn_and_redirects() {
    let mut x = XdpFastPathEngine::new();
    assert_eq!(x.process_rx_ring_packet(tuple(1), false, 100), XdpAction::Pass);
    assert_eq!(x.process_rx_ring_packet(tuple(1), true, 0), XdpAction::Drop);
    x.add_drop_rule(tuple(2));
    assert_eq!(x.process_rx_ring_packet(tuple(2), false, 100), XdpAction::Drop);
    x.add_redirect_rule(tuple(3), 0x9000);
    x.add_redirect_rule(tuple(3), 0x8000);
    assert_eq!(x.process_rx_ring_packet(tuple(3), false, 10), XdpAction::Redirect(0x8000));
    assert_eq!((x.dropped_packets, x.redirected_packets, x.passed_packets), (2, 1, 1));
}

#[test]
fn metrics_bytes_roundtrip_from_the_wire() {
    let mut b = [0u8; 64];
    for i in 0..54 {
        b[i] = (i * 7 + 3) as u8;
    }
    b[53] = 1;
    assert_eq!(BbrMetrics::from_bytes(&b).to_bytes(), b);
    b[53] = 0;
    assert_eq!(BbrMetrics::from_bytes(&b).to_bytes(), b);
}

#[test]
fn windowed_filter_reports_the_extreme_inside_the_window() {
    let mut f = WindowedFilter::new(10, true);
    f.update(0, 9);
    f.update(3, 4);
    f.update(8, 6);
    assert_eq!(f.get(), Some(9));
    f.update(12, 1);
    assert_eq!(f.get(), Some(6));
    f.update(19, 2);
    assert_eq!(f.get(), Some(2));
}
