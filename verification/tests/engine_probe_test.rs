use etherparse::PacketBuilder;
use std::collections::HashSet;
use traceroute::duration::Duration;
use traceroute::engine::hop::TracerouteHop;
use traceroute::engine::schedule::{order_by_query, probe_capacity, TraceRun};
use traceroute::engine::tcp::{
    after_connect, destination_answered, error_reply_matches, probe_path, probe_source_port,
    ProbePath, quoted_packet_start, tcp_reply_matches, tcp_segment_start, ConnectStatus,
    ConnectStep,
};
use traceroute::engine::udp::{
    failed_hop, hop_from_direct_reply, hop_from_icmp_error, ICMP_V4_DEST_UNREACHABLE,
    ICMP_V4_TIME_EXCEEDED, ICMP_V6_DEST_UNREACHABLE, ICMP_V6_TIME_EXCEEDED,
};
use traceroute::net::{IpAddr, Ipv4Addr, Ipv6Addr};

fn v4(a: u8, b: u8, c: u8, d: u8) -> IpAddr {
    IpAddr::V4(Ipv4Addr::new(a, b, c, d))
}

fn v6(bits: u128) -> IpAddr {
    IpAddr::V6(Ipv6Addr { bits })
}

#[test]
fn test_icmp_dual_stack_type_mapping_logic() {
    // RFC 792 (IPv4): Type 11 = Time Exceeded, Type 3 = Destination Unreachable
    let v4_dest: IpAddr = v4(192, 0, 2, 1);
    assert_eq!(
        traceroute::engine::tcp::icmp_types_for_dest(v4_dest),
        (ICMP_V4_TIME_EXCEEDED, ICMP_V4_DEST_UNREACHABLE),
        "IPv4 TCP engine must map Type 11 to Time Exceeded and Type 3 to Destination Unreachable"
    );
    assert_eq!(
        traceroute::engine::udp::icmp_types_for_dest(v4_dest),
        (ICMP_V4_TIME_EXCEEDED, ICMP_V4_DEST_UNREACHABLE),
        "IPv4 UDP engine must map Type 11 to Time Exceeded and Type 3 to Destination Unreachable"
    );
    assert_eq!(ICMP_V4_TIME_EXCEEDED, 11);
    assert_eq!(ICMP_V4_DEST_UNREACHABLE, 3);

    // RFC 4443 (IPv6): Type 3 = Time Exceeded, Type 1 = Destination Unreachable
    let v6_dest: IpAddr = v6(0x2001_0db8_0000_0000_0000_0000_0000_0001);
    assert_eq!(
        traceroute::engine::tcp::icmp_types_for_dest(v6_dest),
        (ICMP_V6_TIME_EXCEEDED, ICMP_V6_DEST_UNREACHABLE),
        "IPv6 TCP engine must map Type 3 to Time Exceeded and Type 1 to Destination Unreachable"
    );
    assert_eq!(
        traceroute::engine::udp::icmp_types_for_dest(v6_dest),
        (ICMP_V6_TIME_EXCEEDED, ICMP_V6_DEST_UNREACHABLE),
        "IPv6 UDP engine must map Type 3 to Time Exceeded and Type 1 to Destination Unreachable"
    );
    assert_eq!(ICMP_V6_TIME_EXCEEDED, 3);
    assert_eq!(ICMP_V6_DEST_UNREACHABLE, 1);
}

#[test]
fn test_intermediate_router_unreachable_does_not_claim_destination() {
    // An intermediate router returning ICMP Destination Unreachable with code 1
    // (Host Unreachable) must NOT be classified as the destination being reached.
    let intermediate_router: IpAddr = v4(192, 168, 1, 1);
    let target_dest: IpAddr = v4(8, 8, 8, 8);

    let icmp_type = 3u8;
    let icmp_code = 1u8;
    let hop = hop_from_icmp_error(
        target_dest,
        4,
        intermediate_router,
        icmp_type,
        icmp_code,
        Duration::from_millis(12),
    )
    .expect("a destination unreachable is reported");
    let reached = hop.success && hop.address == Some(target_dest);
    assert!(
        !reached,
        "Intermediate router unreachable must not be classified as destination reached"
    );
    assert_eq!(hop.address, Some(intermediate_router));
}

#[test]
fn test_tcp_probe_source_port_generation_diversity() {
    let base_port = 50000u16;
    let queries_per_hop = 3u16;
    let mut ports = HashSet::new();

    for ttl in 1..=5 {
        for query_idx in 0..queries_per_hop {
            let port = probe_source_port(base_port, ttl, queries_per_hop, query_idx);
            assert!(port >= 49152);
            assert!(
                ports.insert(port),
                "Port collision detected for TTL {} query {}",
                ttl,
                query_idx
            );
        }
    }
}

#[test]
fn probe_source_port_folds_into_the_ephemeral_range() {
    // (50000 + 1 * 3 + 0) % 16384 + 49152
    assert_eq!(probe_source_port(50000, 1, 3, 0), 50003 % 16384 + 49152);
    assert_eq!(probe_source_port(50000, 1, 3, 0), 50003);
    assert_eq!(probe_source_port(65000, 2, 3, 1), (65000 + 6 + 1) % 16384 + 49152);
    assert_eq!(probe_source_port(65000, 2, 3, 1), 65007);
    assert_eq!(probe_source_port(65530, 2, 3, 1), 49153);
    // No discovered port: the kernel picks one.
    assert_eq!(probe_source_port(0, 7, 3, 2), 0);
    // Largest inputs stay in range.
    let top = probe_source_port(u16::MAX, u16::MAX, u16::MAX, u16::MAX);
    assert!(top >= 49152);
}

#[test]
fn icmp_errors_are_classified_by_family_and_code() {
    let dest = v4(8, 8, 8, 8);
    let router = v4(10, 0, 0, 1);
    let rtt = Duration::from_millis(3);
    // Time exceeded names the router.
    assert_eq!(
        hop_from_icmp_error(dest, 2, router, 11, 0, rtt),
        Some(TracerouteHop { success: true, address: Some(router), ttl: 2, rtt: Some(rtt) })
    );
    // Port unreachable from the destination itself names the destination.
    assert_eq!(
        hop_from_icmp_error(dest, 5, dest, 3, 3, rtt),
        Some(TracerouteHop { success: true, address: Some(dest), ttl: 5, rtt: Some(rtt) })
    );
    // Another ICMP type is ignored.
    assert_eq!(hop_from_icmp_error(dest, 5, dest, 0, 0, rtt), None);
    // IPv6: type 3 is time exceeded, type 1 code 4 port unreachable.
    let dest6 = v6(1);
    let router6 = v6(2);
    assert_eq!(
        hop_from_icmp_error(dest6, 1, router6, 3, 0, rtt),
        Some(TracerouteHop { success: true, address: Some(router6), ttl: 1, rtt: Some(rtt) })
    );
    assert_eq!(
        hop_from_icmp_error(dest6, 1, dest6, 1, 4, rtt),
        Some(TracerouteHop { success: true, address: Some(dest6), ttl: 1, rtt: Some(rtt) })
    );
    assert_eq!(hop_from_icmp_error(dest6, 1, dest6, 11, 0, rtt), None);
}

#[test]
fn failed_and_direct_hops() {
    assert_eq!(
        failed_hop(9),
        TracerouteHop { success: false, address: None, ttl: 9, rtt: None }
    );
    let rtt = Duration::from_millis(1);
    let peer = v4(127, 0, 0, 1);
    assert_eq!(
        hop_from_direct_reply(1, Some(peer), rtt),
        TracerouteHop { success: true, address: Some(peer), ttl: 1, rtt: Some(rtt) }
    );
}

#[test]
fn connect_outcomes_decide_the_stream_probe() {
    assert_eq!(after_connect(ConnectStatus::Connected), ConnectStep::Reached);
    assert_eq!(after_connect(ConnectStatus::Refused), ConnectStep::Reached);
    assert_eq!(after_connect(ConnectStatus::InProgress), ConnectStep::Poll);
    assert_eq!(after_connect(ConnectStatus::Reset), ConnectStep::CheckErrorQueue);
    assert_eq!(after_connect(ConnectStatus::Failed), ConnectStep::CheckErrorQueue);
    assert!(destination_answered(ConnectStatus::Connected));
    assert!(destination_answered(ConnectStatus::Refused));
    assert!(destination_answered(ConnectStatus::Reset));
    assert!(!destination_answered(ConnectStatus::InProgress));
    assert!(!destination_answered(ConnectStatus::Failed));
}

fn icmp_datagram_quoting_syn(seq: u32) -> Vec<u8> {
    // Outer IPv4 header (20 bytes), ICMP header (8 bytes), quoted IPv4 + TCP.
    let mut quoted = Vec::new();
    PacketBuilder::ipv4([192, 168, 1, 100], [8, 8, 8, 8], 1)
        .tcp(49153, 443, seq, 14600)
        .write(&mut quoted, &[])
        .expect("write quoted packet");
    let mut datagram = vec![0x45u8];
    datagram.extend_from_slice(&[0u8; 19]);
    datagram.extend_from_slice(&[11, 0, 0, 0, 0, 0, 0, 0]);
    datagram.extend_from_slice(&quoted[..28]);
    datagram
}

#[test]
fn icmp_errors_are_matched_to_the_syn_by_sequence_number() {
    let datagram = icmp_datagram_quoting_syn(777);
    assert_eq!(quoted_packet_start(&datagram, true), Some(28));
    assert!(error_reply_matches(&datagram, true, 777));
    assert!(!error_reply_matches(&datagram, true, 778));
    // A datagram that ends with its headers quotes nothing.
    assert_eq!(quoted_packet_start(&datagram[..28], true), None);
    assert!(!error_reply_matches(&datagram[..28], true, 777));
    assert!(!error_reply_matches(&[], true, 777));
    // ICMPv6 sockets deliver no outer header.
    assert_eq!(quoted_packet_start(&datagram[20..], false), Some(8));
    assert!(error_reply_matches(&datagram[20..], false, 777));
}

fn tcp_reply(src_port: u16, dst_port: u16, ack: u32) -> Vec<u8> {
    let mut seg = Vec::new();
    seg.extend_from_slice(&src_port.to_be_bytes());
    seg.extend_from_slice(&dst_port.to_be_bytes());
    seg.extend_from_slice(&5u32.to_be_bytes());
    seg.extend_from_slice(&ack.to_be_bytes());
    seg.extend_from_slice(&[0x50, 0x12, 0x39, 0x08, 0, 0, 0, 0]);
    seg
}

#[test]
fn tcp_replies_are_matched_to_the_syn() {
    let mut datagram = vec![0x45u8];
    datagram.extend_from_slice(&[0u8; 19]);
    datagram.extend_from_slice(&tcp_reply(443, 49153, 1001));
    assert_eq!(tcp_segment_start(&datagram, true), Some(20));
    assert!(tcp_reply_matches(&datagram, true, true, 443, 49153, 1000));
    assert!(!tcp_reply_matches(&datagram, true, false, 443, 49153, 1000));
    assert!(!tcp_reply_matches(&datagram, true, true, 80, 49153, 1000));
    assert!(!tcp_reply_matches(&datagram, true, true, 443, 49154, 1000));
    assert!(!tcp_reply_matches(&datagram, true, true, 443, 49153, 1001));
    // The acknowledgment wraps at the top of the sequence space.
    let wrapped = tcp_reply(443, 49153, 0);
    assert!(tcp_reply_matches(&wrapped, false, true, 443, 49153, u32::MAX));
    // A segment shorter than a TCP header never matches.
    assert!(!tcp_reply_matches(&wrapped[..19], false, true, 443, 49153, u32::MAX));
}

#[test]
fn trace_run_stops_scheduling_after_the_destination_answers() {
    let dest = v4(127, 0, 0, 1);
    let mut run = TraceRun::new(dest, 15, 3);
    assert_eq!(run.next_hop(), Some(1));
    run.record(1, 2, TracerouteHop { success: true, address: Some(dest), ttl: 1, rtt: None });
    run.record(1, 0, TracerouteHop { success: false, address: None, ttl: 1, rtt: None });
    run.record(1, 1, TracerouteHop { success: false, address: None, ttl: 1, rtt: None });
    assert!(run.reached_destination());
    assert_eq!(run.next_hop(), None, "Hop 2 must never have been scheduled");
    let hops = run.finish();
    assert_eq!(hops.len(), 1);
    let hop1 = hops.get(&1).expect("Hop 1 must be present");
    assert_eq!(hop1.len(), 3, "All queries for hop 1 must be recorded");
    // Ordered by query index.
    assert!(!hop1[0].success);
    assert!(!hop1[1].success);
    assert!(hop1[2].success);
}

#[test]
fn trace_run_walks_every_ttl_up_to_max_hops() {
    let dest = v4(192, 0, 2, 1);
    let mut run = TraceRun::new(dest, 3, 1);
    let mut seen = Vec::new();
    while let Some(ttl) = run.next_hop() {
        run.record(ttl, 0, TracerouteHop { success: false, address: None, ttl, rtt: None });
        seen.push(ttl);
    }
    assert_eq!(seen, vec![1, 2, 3]);
    assert!(!run.reached_destination());
    assert_eq!(run.finish().len(), 3);
    let mut empty = TraceRun::new(dest, 0, 3);
    assert_eq!(empty.next_hop(), None);
    assert_eq!(empty.finish().len(), 0);
}

#[test]
fn probes_are_ordered_by_query_index() {
    let hop = |ttl: u16| TracerouteHop { success: false, address: None, ttl, rtt: None };
    let pairs = vec![(2u16, hop(3)), (0u16, hop(1)), (1u16, hop(2)), (0u16, hop(4))];
    let ordered = order_by_query(&pairs, 3);
    assert_eq!(
        ordered.iter().map(|h| h.ttl).collect::<Vec<_>>(),
        vec![1, 4, 2, 3]
    );
    assert_eq!(order_by_query(&pairs, 1).len(), 2);
}

#[test]
fn at_least_one_probe_may_be_in_flight() {
    assert_eq!(probe_capacity(0), 1);
    assert_eq!(probe_capacity(1), 1);
    assert_eq!(probe_capacity(16), 16);
}

#[test]
fn raw_probes_only_with_every_raw_socket_ready() {
    assert_eq!(probe_path(true, true, true, true), ProbePath::Raw);
    // A raw ICMP socket that cannot be opened falls back to the stream path.
    assert_eq!(probe_path(true, true, false, false), ProbePath::Stream);
    assert_eq!(probe_path(true, false, false, false), ProbePath::Stream);
    assert_eq!(probe_path(true, true, true, false), ProbePath::Stream);
    assert_eq!(probe_path(false, true, true, true), ProbePath::Stream);
}

#[test]
fn every_probe_of_a_full_size_trace_gets_its_own_port() {
    // 5461 hops of 3 queries: 16383 probes, within the ephemeral range.
    let mut ports = HashSet::new();
    for ttl in 1..=5461u16 {
        for query_idx in 0..3u16 {
            assert!(ports.insert(probe_source_port(65535, ttl, 3, query_idx)));
        }
    }
    assert_eq!(ports.len(), 16383);
}

#[test]
fn each_query_keeps_its_place_when_results_arrive_out_of_order() {
    let dest = v4(192, 0, 2, 1);
    let mut run = TraceRun::new(dest, 2, 4);
    while let Some(ttl) = run.next_hop() {
        for query_idx in [3u16, 1, 0, 2] {
            let hop = TracerouteHop {
                success: false,
                address: None,
                ttl: 100 * ttl + query_idx,
                rtt: None,
            };
            run.record(ttl, query_idx, hop);
        }
    }
    let hops = run.finish();
    for ttl in 1..=2u16 {
        let list = hops.get(&ttl).expect("every TTL is kept");
        assert_eq!(
            list.iter().map(|h| h.ttl).collect::<Vec<_>>(),
            vec![100 * ttl, 100 * ttl + 1, 100 * ttl + 2, 100 * ttl + 3]
        );
    }
}
