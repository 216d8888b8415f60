//! TCP SYN construction with a pseudo-header checksum.

use crate::net::Ipv4Addr;
use etherparse::TcpHeader;
use vstd::prelude::*;

verus! {

/// Errors encountered during packet generation or parsing.
#[derive(Debug, PartialEq, Eq, Clone)]
pub enum PacketError {
    Serialisation(String),
    InvalidHeader(String),
}

/// The window size advertised by probe SYNs.
pub const SYN_WINDOW_SIZE: u16 = 14600;

/// The end-around-carry sum of 16-bit words whose plain sum is `s`: zero
/// for zero, and otherwise the value in `1..=0xffff` congruent to `s`
/// modulo `0xffff` (RFC 1071).
pub open spec fn ones_complement_fold(s: int) -> int {
    if s <= 0 {
        0
    } else {
        (s - 1) % 0xffff + 1
    }
}

/// The TCP checksum of a SYN header carrying the given ports, sequence
/// number and window (acknowledgment number, urgent pointer and checksum
/// field zero, data offset five words, no options, no payload), over the
/// IPv4 pseudo-header of `source_ip` and `destination_ip` (their 32 bits
/// in network order), protocol 6 and TCP length 20: the one's complement
/// of the one's-complement sum of all the 16-bit words (RFC 793, RFC 1071).
pub open spec fn tcp_syn_checksum_ipv4(
    source_ip: u32,
    destination_ip: u32,
    source_port: u16,
    destination_port: u16,
    sequence_number: u32,
    window_size: u16,
) -> u16 {
    let words = source_ip / 0x1_0000 + source_ip % 0x1_0000 + destination_ip / 0x1_0000
        + destination_ip % 0x1_0000 + 6 + 20 + source_port + destination_port + sequence_number
        / 0x1_0000 + sequence_number % 0x1_0000 + 0x5002 + window_size;
    (0xffff - ones_complement_fold(words)) as u16
}

/// The two bytes of `v`, most significant first.
pub open spec fn be16(v: u16) -> Seq<u8> {
    seq![(v / 0x100) as u8, (v % 0x100) as u8]
}

/// The four bytes of `v`, most significant first.
pub open spec fn be32(v: u32) -> Seq<u8> {
    seq![
        (v / 0x100_0000) as u8,
        ((v / 0x1_0000) % 0x100) as u8,
        ((v / 0x100) % 0x100) as u8,
        (v % 0x100) as u8,
    ]
}

/// The 20 bytes of a TCP header without options that carries the given
/// ports, sequence number, window and checksum, an acknowledgment number
/// and urgent pointer of zero, and of the flags only SYN.
pub open spec fn syn_header_bytes(
    source_port: u16,
    destination_port: u16,
    sequence_number: u32,
    window_size: u16,
    checksum: u16,
) -> Seq<u8> {
    be16(source_port) + be16(destination_port) + be32(sequence_number) + be32(0) + seq![
        0x50u8,
        0x02u8,
    ] + be16(window_size) + be16(checksum) + be16(0)
}

/// Calls etherparse's `TcpHeader::calc_checksum_ipv4_raw` (addresses as their
/// big-endian bytes) on a header built with `TcpHeader::new` from the given
/// values and the SYN flag set, with an empty payload. Claimed: the result
/// is `Ok` (the source fails only for payloads longer than 65535 bytes less
/// the header length) and is the internet checksum of the pseudo-header and
/// the header, as `tcp_syn_checksum_ipv4` states it; the source sums the
/// words in native byte order with end-around carry and swaps the
/// complement back to network order, which gives the same value.
#[verifier::external_body]
fn syn_checksum_ipv4(
    source_ip: u32,
    destination_ip: u32,
    source_port: u16,
    destination_port: u16,
    sequence_number: u32,
    window_size: u16,
) -> (r: Result<u16, String>)
    ensures
        r is Ok,
        r->Ok_0 == tcp_syn_checksum_ipv4(
            source_ip,
            destination_ip,
            source_port,
            destination_port,
            sequence_number,
            window_size,
        ),
{
    let mut header = TcpHeader::new(source_port, destination_port, sequence_number, window_size);
    header.syn = true;
    header
        .calc_checksum_ipv4_raw(source_ip.to_be_bytes(), destination_ip.to_be_bytes(), &[])
        .map_err(|e| e.to_string())
}

/// Calls etherparse's `TcpHeader::to_bytes` for a header built with
/// `TcpHeader::new` from the given values, the SYN flag set and the given
/// checksum, and copies the bytes into a vector. Claimed: the bytes are the
/// 20-byte layout that the source writes for such a header (no options);
/// the call cannot fail.
#[verifier::external_body]
fn write_syn_header(
    source_port: u16,
    destination_port: u16,
    sequence_number: u32,
    window_size: u16,
    checksum: u16,
) -> (r: Vec<u8>)
    ensures
        r@ == syn_header_bytes(
            source_port,
            destination_port,
            sequence_number,
            window_size,
            checksum,
        ),
{
    let mut header = TcpHeader::new(source_port, destination_port, sequence_number, window_size);
    header.syn = true;
    header.checksum = checksum;
    header.to_bytes().to_vec()
}

/// The bytes of the probe SYN for the given addresses, ports and sequence
/// number: the SYN header with the checksum over the IPv4 pseudo-header.
pub open spec fn probe_syn_bytes(
    src_ip: Ipv4Addr,
    dst_ip: Ipv4Addr,
    src_port: u16,
    dst_port: u16,
    seq: u32,
) -> Seq<u8> {
    syn_header_bytes(
        src_port,
        dst_port,
        seq,
        SYN_WINDOW_SIZE,
        tcp_syn_checksum_ipv4(
            src_ip.bits,
            dst_ip.bits,
            src_port,
            dst_port,
            seq,
            SYN_WINDOW_SIZE,
        ),
    )
}

/// Serialises an IPv4 TCP SYN header with its internet checksum; it
/// always succeeds. The TTL is not part of the TCP header and is ignored
/// here.
pub fn build_tcp_syn_ipv4(
    src_ip: Ipv4Addr,
    dst_ip: Ipv4Addr,
    src_port: u16,
    dst_port: u16,
    seq: u32,
    _ttl: u8,
) -> (r: Result<Vec<u8>, PacketError>)
    ensures
        r matches Ok(b) && b@ == probe_syn_bytes(src_ip, dst_ip, src_port, dst_port, seq),
{
    let checksum = match syn_checksum_ipv4(src_ip.bits, dst_ip.bits, src_port, dst_port, seq, SYN_WINDOW_SIZE) {
        Ok(c) => c,
        Err(msg) => {
            return Err(PacketError::Serialisation(msg));
        },
    };
    Ok(write_syn_header(src_port, dst_port, seq, SYN_WINDOW_SIZE, checksum))
}

/// Alias for [`build_tcp_syn_ipv4`].
pub fn build_tcp_syn_packet(
    src_ip: Ipv4Addr,
    dst_ip: Ipv4Addr,
    src_port: u16,
    dst_port: u16,
    seq: u32,
    ttl: u8,
) -> (r: Result<Vec<u8>, PacketError>)
    ensures
        r matches Ok(b) && b@ == probe_syn_bytes(src_ip, dst_ip, src_port, dst_port, seq),
{
    build_tcp_syn_ipv4(src_ip, dst_ip, src_port, dst_port, seq, ttl)
}

} // verus!
