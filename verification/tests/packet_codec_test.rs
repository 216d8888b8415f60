use etherparse::{PacketBuilder, TcpHeaderSlice};
use traceroute::net::Ipv4Addr;
use traceroute::packet::icmp::{
    parse_icmp_payload, parse_icmp_time_exceeded_payload, probe_from_lax_payload,
    probe_from_sliced, ExtractedProbe, IcmpExtractedProbe, SlicedTransport,
};
use traceroute::packet::quic::{build_quic_initial_packet, generate_quic_initial_packet};
use traceroute::packet::tcp::{build_tcp_syn_ipv4, build_tcp_syn_packet, PacketError};

#[test]
fn test_quic_packet_length_and_header() {
    let packet = generate_quic_initial_packet();
    assert_eq!(packet.len(), 1200);
    assert_eq!(&packet[0..5], &[0xCA, 0xFF, 0xFF, 0xFF, 0xFF]);
    assert_eq!(packet[5], 10); // Destination Connection ID length
    assert_eq!(packet[16], 4); // Source Connection ID length
}

#[test]
fn test_tcp_syn_packet_generation() {
    let src = Ipv4Addr::new(192, 168, 1, 100);
    let dst = Ipv4Addr::new(8, 8, 8, 8);
    let packet = build_tcp_syn_ipv4(src, dst, 49152, 443, 1000, 64).expect("valid tcp syn");
    assert!(!packet.is_empty());
    assert_eq!(packet.len(), 20); // Standard TCP header without options is 20 bytes

    // Parse header and verify SYN flag and non-zero checksum
    let slice = TcpHeaderSlice::from_slice(&packet).expect("valid tcp header slice");
    assert_eq!(slice.source_port(), 49152);
    assert_eq!(slice.destination_port(), 443);
    assert_eq!(slice.sequence_number(), 1000);
    assert!(slice.syn());
    assert!(!slice.ack());
    assert_ne!(slice.checksum(), 0);

    // Verify alias produces identical output
    let alias_packet =
        build_tcp_syn_packet(src, dst, 49152, 443, 1000, 64).expect("valid tcp syn via alias");
    assert_eq!(packet, alias_packet);
}

#[test]
fn test_parse_icmp_payload_udp() {
    let builder = PacketBuilder::ipv4([192, 168, 1, 100], [8, 8, 8, 8], 64).udp(54321, 33434);
    let mut payload = Vec::new();
    builder
        .write(&mut payload, &[1, 2, 3, 4])
        .expect("write packet");

    let probe = parse_icmp_payload(&payload).expect("parse udp probe");
    assert_eq!(probe, ExtractedProbe::Udp { src_port: 54321 });

    // Test alias function and type alias
    let alias_probe: IcmpExtractedProbe =
        parse_icmp_time_exceeded_payload(&payload).expect("parse via alias");
    assert_eq!(alias_probe, ExtractedProbe::Udp { src_port: 54321 });
}

#[test]
fn test_parse_icmp_payload_tcp() {
    let builder =
        PacketBuilder::ipv4([192, 168, 1, 100], [8, 8, 8, 8], 64).tcp(49152, 443, 99999, 14600);
    let mut payload = Vec::new();
    builder.write(&mut payload, &[]).expect("write packet");

    let probe = parse_icmp_payload(&payload).expect("parse tcp probe");
    assert_eq!(probe, ExtractedProbe::Tcp { seq: 99999 });
}

#[test]
fn test_parse_icmp_payload_truncated_tcp() {
    // RFC 792 ICMP payload contains IP header (20 bytes) + first 8 bytes of TCP header
    let builder =
        PacketBuilder::ipv4([192, 168, 1, 100], [8, 8, 8, 8], 64).tcp(49152, 443, 123456, 14600);
    let mut full_packet = Vec::new();
    builder.write(&mut full_packet, &[]).expect("write packet");

    // Truncate to IPv4 header (20 bytes) + 8 bytes of TCP (total 28 bytes)
    let truncated = &full_packet[..28];
    let probe = parse_icmp_payload(truncated).expect("parse truncated tcp probe");
    assert_eq!(probe, ExtractedProbe::Tcp { seq: 123456 });
}

#[test]
fn test_parse_icmp_payload_ipv6_udp() {
    let builder = PacketBuilder::ipv6(
        [0x20, 0x01, 0x0d, 0xb8, 0, 0, 0, 0, 0, 0, 0, 0, 0, 0, 0, 1],
        [0x20, 0x01, 0x0d, 0xb8, 0, 0, 0, 0, 0, 0, 0, 0, 0, 0, 0, 2],
        64,
    )
    .udp(60000, 33434);
    let mut payload = Vec::new();
    builder
        .write(&mut payload, &[10, 20, 30])
        .expect("write packet");

    let probe = parse_icmp_payload(&payload).expect("parse ipv6 udp probe");
    assert_eq!(probe, ExtractedProbe::Udp { src_port: 60000 });
}

#[test]
fn test_parse_icmp_payload_too_short() {
    let short_data = [0u8; 7];
    let result = parse_icmp_payload(&short_data);
    assert!(result.is_err());
}

#[test]
fn test_parse_icmp_payload_unsupported_protocol() {
    // IPv4 packet with ICMP payload (not TCP or UDP)
    let builder =
        PacketBuilder::ipv4([192, 168, 1, 100], [8, 8, 8, 8], 64).icmpv4_echo_request(1, 1);
    let mut payload = Vec::new();
    builder.write(&mut payload, &[]).expect("write packet");

    let result = parse_icmp_payload(&payload);
    assert!(result.is_err());
}

#[test]
fn parse_errors_carry_their_messages() {
    assert_eq!(
        parse_icmp_payload(&[0u8; 7]),
        Err(PacketError::InvalidHeader("ICMP payload too short".to_string()))
    );
    let builder =
        PacketBuilder::ipv4([192, 168, 1, 100], [8, 8, 8, 8], 64).icmpv4_echo_request(1, 1);
    let mut payload = Vec::new();
    builder.write(&mut payload, &[]).expect("write packet");
    assert_eq!(
        parse_icmp_payload(&payload),
        Err(PacketError::InvalidHeader("unsupported inner transport".to_string()))
    );
    // Eight bytes that are no IP header at all.
    assert_eq!(
        parse_icmp_payload(&[0u8; 8]),
        Err(PacketError::InvalidHeader(
            "missing or invalid inner transport layer".to_string()
        ))
    );
}

#[test]
fn sliced_transport_decides_when_it_finds_a_transport() {
    assert_eq!(
        probe_from_sliced(SlicedTransport::Udp { src_port: 7 }),
        Some(Ok(ExtractedProbe::Udp { src_port: 7 }))
    );
    assert_eq!(
        probe_from_sliced(SlicedTransport::Tcp { seq: 9 }),
        Some(Ok(ExtractedProbe::Tcp { seq: 9 }))
    );
    assert_eq!(
        probe_from_sliced(SlicedTransport::Other),
        Some(Err(PacketError::InvalidHeader(
            "unsupported inner transport".to_string()
        )))
    );
    assert_eq!(probe_from_sliced(SlicedTransport::Unparsed), None);
    assert_eq!(probe_from_sliced(SlicedTransport::NoTransport), None);
}

#[test]
fn lax_payload_reads_the_first_eight_transport_bytes() {
    let udp = Some((17u8, vec![0xD4, 0x31, 0x82, 0x9A, 0, 0, 0, 0]));
    assert_eq!(
        probe_from_lax_payload(&udp),
        Ok(ExtractedProbe::Udp { src_port: 54321 })
    );
    let tcp = Some((6u8, vec![0xC0, 0x00, 0x01, 0xBB, 0x00, 0x01, 0xE2, 0x40]));
    assert_eq!(
        probe_from_lax_payload(&tcp),
        Ok(ExtractedProbe::Tcp { seq: 123456 })
    );
    let short = Some((6u8, vec![0xC0, 0x00, 0x01]));
    assert!(probe_from_lax_payload(&short).is_err());
    let other = Some((1u8, vec![0u8; 8]));
    assert!(probe_from_lax_payload(&other).is_err());
    assert!(probe_from_lax_payload(&None).is_err());
}

#[test]
fn quic_packet_carries_the_given_connection_ids() {
    let dcid: Vec<u8> = (1..=10).collect();
    let scid: Vec<u8> = vec![0xA1, 0xA2, 0xA3, 0xA4];
    let packet = build_quic_initial_packet(&dcid, &scid);
    assert_eq!(packet.len(), 1200);
    assert_eq!(&packet[0..5], &[0xCA, 0xFF, 0xFF, 0xFF, 0xFF]);
    assert_eq!(packet[5], 10);
    assert_eq!(&packet[6..16], dcid.as_slice());
    assert_eq!(packet[16], 4);
    assert_eq!(&packet[17..21], scid.as_slice());
    assert!(packet[21..].iter().all(|b| *b == 0));
}

#[test]
fn tcp_syn_checksum_depends_on_the_addresses() {
    let src = Ipv4Addr::new(192, 168, 1, 100);
    let a = build_tcp_syn_ipv4(src, Ipv4Addr::new(8, 8, 8, 8), 49152, 443, 1000, 64)
        .expect("valid tcp syn");
    let b = build_tcp_syn_ipv4(src, Ipv4Addr::new(8, 8, 4, 4), 49152, 443, 1000, 64)
        .expect("valid tcp syn");
    assert_eq!(&a[..16], &b[..16]);
    assert_ne!(&a[16..18], &b[16..18]);
    // Window size is the probe SYN window.
    assert_eq!(&a[14..16], &14600u16.to_be_bytes());
    assert_eq!(a[12], 0x50);
    assert_eq!(a[13], 0x02);
}

/// The RFC 1071 internet checksum of `bytes` (an even number of them).
fn internet_checksum(bytes: &[u8]) -> u16 {
    let mut sum: u32 = 0;
    for pair in bytes.chunks(2) {
        sum += u32::from(u16::from_be_bytes([pair[0], pair[1]]));
    }
    while sum > 0xffff {
        sum = (sum & 0xffff) + (sum >> 16);
    }
    !(sum as u16)
}

#[test]
fn tcp_syn_checksum_is_the_internet_checksum() {
    for (src, dst, sport, dport, seq) in [
        ([192u8, 168, 1, 100], [8u8, 8, 8, 8], 49152u16, 443u16, 1000u32),
        ([10, 0, 0, 1], [10, 0, 0, 2], 65535, 80, u32::MAX),
        ([0, 0, 0, 0], [0, 0, 0, 0], 0, 0, 0),
        ([255, 255, 255, 255], [255, 255, 255, 255], 65535, 65535, 0xFFFF_0000),
    ] {
        let packet = build_tcp_syn_ipv4(
            Ipv4Addr::new(src[0], src[1], src[2], src[3]),
            Ipv4Addr::new(dst[0], dst[1], dst[2], dst[3]),
            sport,
            dport,
            seq,
            64,
        )
        .expect("the SYN builder always succeeds");
        assert_eq!(packet.len(), 20);
        let mut summed = Vec::new();
        summed.extend_from_slice(&src);
        summed.extend_from_slice(&dst);
        summed.extend_from_slice(&[0, 6, 0, 20]);
        summed.extend_from_slice(&packet[..16]);
        summed.extend_from_slice(&[0, 0]);
        summed.extend_from_slice(&packet[18..]);
        assert_eq!(
            u16::from_be_bytes([packet[16], packet[17]]),
            internet_checksum(&summed)
        );
    }
}
