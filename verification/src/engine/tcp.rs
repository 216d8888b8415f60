//! Decisions of the TCP probing engine: probe ports and the correlation of
//! replies with the SYN that was sent.

use crate::engine::udp;
pub use crate::engine::udp::{
    icmp_types_of, ICMP_V4_DEST_UNREACHABLE, ICMP_V4_TIME_EXCEEDED, ICMP_V6_DEST_UNREACHABLE,
    ICMP_V6_TIME_EXCEEDED,
};
use crate::net::{IpAddr, Ipv4Addr};
use crate::packet::icmp::{
    extraction_view, quoted_probe, parse_icmp_payload, ExtractedProbe,
};
use crate::packet::tcp::{be16, be32, build_tcp_syn_ipv4, probe_syn_bytes, PacketError};
use vstd::prelude::*;
use vstd::slice::slice_subrange;

verus! {

/// Returns expected ICMP `(time_exceeded, dest_unreachable)` message types
/// based on the target IP protocol version (RFC 792 for IPv4, RFC 4443 for IPv6).
pub fn icmp_types_for_dest(dest: IpAddr) -> (r: (u8, u8))
    ensures
        r == icmp_types_of(dest),
{
    udp::icmp_types_for_dest(dest)
}

/// Builds a TCP SYN probe packet suitable for transmission towards the destination.
pub fn build_tcp_probe_packet(
    src_ip: Ipv4Addr,
    dst_ip: Ipv4Addr,
    src_port: u16,
    dst_port: u16,
    seq: u32,
    ttl: u8,
) -> (r: Result<Vec<u8>, PacketError>)
    ensures
        r matches Ok(b) && b@ == probe_syn_bytes(src_ip, dst_ip, src_port, dst_port, seq),
{
    build_tcp_syn_ipv4(src_ip, dst_ip, src_port, dst_port, seq, ttl)
}

/// First port of the ephemeral range that probe source ports are drawn from.
pub const EPHEMERAL_PORT_BASE: u32 = 49152;

/// Number of ports in the ephemeral range.
pub const EPHEMERAL_PORT_SPAN: u32 = 16384;

/// The source port of query `query_idx` at TTL `ttl`: an offset from the
/// discovered port `base` folded into the ephemeral range, or 0 (let the
/// kernel choose) when no port was discovered.
pub open spec fn probe_port(base: u16, ttl: u16, queries_per_hop: u16, query_idx: u16) -> int {
    if base == 0 {
        0
    } else {
        (base + ttl * queries_per_hop + query_idx) % (EPHEMERAL_PORT_SPAN as int)
            + EPHEMERAL_PORT_BASE
    }
}

/// Computes the source port of one probe of a TCP trace.
pub fn probe_source_port(base: u16, ttl: u16, queries_per_hop: u16, query_idx: u16) -> (r: u16)
    ensures
        r == probe_port(base, ttl, queries_per_hop, query_idx),
        base != 0 ==> EPHEMERAL_PORT_BASE <= r,
{
    if base != 0 {
        let t: u64 = ttl as u64;
        let q: u64 = queries_per_hop as u64;
        assert(t * q <= 0xffff * 0xffff) by (nonlinear_arith)
            requires
                t <= 0xffff,
                q <= 0xffff,
        ;
        let offset: u64 = base as u64 + t * q + query_idx as u64;
        let folded: u64 = offset % (EPHEMERAL_PORT_SPAN as u64);
        (folded + EPHEMERAL_PORT_BASE as u64) as u16
    } else {
        0
    }
}

/// Two different probes get different source ports as long as their probe
/// numbers lie less than the span of the ephemeral range apart: query
/// `query_idx` of TTL `ttl` is probe number `ttl * queries_per_hop +
/// query_idx`, and distinct numbers closer than the span fold to distinct
/// ports.
pub proof fn lemma_probe_ports_distinct(
    base: u16,
    queries_per_hop: u16,
    ttl1: u16,
    query1: u16,
    ttl2: u16,
    query2: u16,
)
    requires
        base != 0,
        query1 < queries_per_hop,
        query2 < queries_per_hop,
        -(EPHEMERAL_PORT_SPAN as int) < (ttl1 * queries_per_hop + query1) - (ttl2
            * queries_per_hop + query2) < EPHEMERAL_PORT_SPAN,
        ttl1 != ttl2 || query1 != query2,
    ensures
        probe_port(base, ttl1, queries_per_hop, query1) != probe_port(
            base,
            ttl2,
            queries_per_hop,
            query2,
        ),
{
    let n: int = EPHEMERAL_PORT_SPAN as int;
    let q: int = queries_per_hop as int;
    let k1: int = ttl1 * q + query1;
    let k2: int = ttl2 * q + query2;
    let b: int = base as int;
    assert(k1 != k2) by (nonlinear_arith)
        requires
            k1 == ttl1 * q + query1,
            k2 == ttl2 * q + query2,
            0 <= query1 < q,
            0 <= query2 < q,
            ttl1 != ttl2 || query1 != query2,
            ttl1 >= 0,
            ttl2 >= 0,
    {
        if ttl1 < ttl2 {
            assert(ttl2 * q >= (ttl1 + 1) * q);
        } else if ttl2 < ttl1 {
            assert(ttl1 * q >= (ttl2 + 1) * q);
        }
    }
    assert(k1 >= 0 && k2 >= 0) by (nonlinear_arith)
        requires
            k1 == ttl1 * q + query1,
            k2 == ttl2 * q + query2,
            q >= 0,
            query1 >= 0,
            query2 >= 0,
            ttl1 >= 0,
            ttl2 >= 0,
    ;
    assert((b + k1) % n != (b + k2) % n) by (nonlinear_arith)
        requires
            n == 16384,
            k1 >= 0,
            k2 >= 0,
            -n < k1 - k2 < n,
            k1 != k2,
            b >= 0,
    {
        let d1 = (b + k1) / n;
        let d2 = (b + k2) / n;
        assert(b + k1 == n * d1 + (b + k1) % n);
        assert(b + k2 == n * d2 + (b + k2) % n);
        if (b + k1) % n == (b + k2) % n {
            assert(k1 - k2 == n * (d1 - d2));
            if d1 > d2 {
                assert(n * (d1 - d2) >= n);
            } else if d1 < d2 {
                assert(n * (d2 - d1) >= n);
            }
        }
    }
}

/// No two probes of a trace share a source port when the trace sends at
/// most as many probes as the ephemeral range holds: TTLs `1..=max_hops`,
/// `queries_per_hop` queries each, and `max_hops * queries_per_hop` at most
/// the span of the range.
pub proof fn lemma_trace_ports_distinct(
    base: u16,
    max_hops: u16,
    queries_per_hop: u16,
    ttl1: u16,
    query1: u16,
    ttl2: u16,
    query2: u16,
)
    requires
        base != 0,
        max_hops * queries_per_hop <= EPHEMERAL_PORT_SPAN,
        1 <= ttl1 <= max_hops,
        1 <= ttl2 <= max_hops,
        query1 < queries_per_hop,
        query2 < queries_per_hop,
        ttl1 != ttl2 || query1 != query2,
    ensures
        probe_port(base, ttl1, queries_per_hop, query1) != probe_port(
            base,
            ttl2,
            queries_per_hop,
            query2,
        ),
{
    let n: int = EPHEMERAL_PORT_SPAN as int;
    let q: int = queries_per_hop as int;
    let h: int = max_hops as int;
    assert(-n < (ttl1 * q + query1) - (ttl2 * q + query2) < n) by (nonlinear_arith)
        requires
            n == 16384,
            h * q <= n,
            1 <= ttl1 <= h,
            1 <= ttl2 <= h,
            0 <= query1 < q,
            0 <= query2 < q,
    {
        assert(ttl1 * q <= h * q);
        assert(ttl2 * q <= h * q);
        assert(ttl1 * q >= q);
        assert(ttl2 * q >= q);
    }
    lemma_probe_ports_distinct(base, queries_per_hop, ttl1, query1, ttl2, query2);
}

/// Where the quoted packet starts in a datagram read from a raw ICMP
/// socket: after the outer IPv4 header (its IHL field counts 32-bit words)
/// and the 8-byte ICMP header; for ICMPv6 the socket delivers no outer
/// header. `None` when the datagram ends before any quoted byte.
pub open spec fn quoted_packet_offset(buf: Seq<u8>, dest_is_ipv4: bool) -> Option<int> {
    if dest_is_ipv4 {
        if buf.len() == 0 {
            None
        } else {
            let off = (buf[0] % 16) * 4 + 8;
            if buf.len() <= off {
                None
            } else {
                Some(off)
            }
        }
    } else {
        if buf.len() <= 8 {
            None
        } else {
            Some(8)
        }
    }
}

/// Where the TCP header starts in a segment read from a raw TCP socket:
/// after the outer IPv4 header, or at once for IPv6. `None` when the
/// datagram ends first.
pub open spec fn tcp_segment_offset(buf: Seq<u8>, dest_is_ipv4: bool) -> Option<int> {
    if dest_is_ipv4 {
        if buf.len() == 0 {
            None
        } else {
            let off = (buf[0] % 16) * 4;
            if buf.len() <= off {
                None
            } else {
                Some(off)
            }
        }
    } else {
        Some(0)
    }
}

/// The big-endian value of `b[i]`, `b[i + 1]`.
pub open spec fn u16_at(b: Seq<u8>, i: int) -> int {
    b[i] * 0x100 + b[i + 1]
}

/// The big-endian value of `b[i..i + 4]`.
pub open spec fn u32_at(b: Seq<u8>, i: int) -> int {
    b[i] * 0x100_0000 + b[i + 1] * 0x1_0000 + b[i + 2] * 0x100 + b[i + 3]
}

/// Computes the header offset from an IHL byte.
fn ihl_bytes(b: u8) -> (r: usize)
    ensures
        r == (b % 16) * 4,
{
    let ihl = b & 0x0f;
    assert(b & 0x0f == b % 16) by (bit_vector);
    (ihl as usize) * 4
}

/// Finds where the packet quoted in an ICMP error starts.
pub fn quoted_packet_start(buf: &[u8], dest_is_ipv4: bool) -> (r: Option<usize>)
    ensures
        r matches Some(o) ==> quoted_packet_offset(buf@, dest_is_ipv4) == Some(o as int),
        r is None ==> quoted_packet_offset(buf@, dest_is_ipv4) is None,
{
    if dest_is_ipv4 {
        if buf.len() == 0 {
            return None;
        }
        let offset = ihl_bytes(buf[0]) + 8;
        if buf.len() <= offset {
            None
        } else {
            Some(offset)
        }
    } else {
        if buf.len() <= 8 {
            None
        } else {
            Some(8)
        }
    }
}

/// Finds where the TCP header of a raw TCP reply starts.
pub fn tcp_segment_start(buf: &[u8], dest_is_ipv4: bool) -> (r: Option<usize>)
    ensures
        r matches Some(o) ==> tcp_segment_offset(buf@, dest_is_ipv4) == Some(o as int),
        r is None ==> tcp_segment_offset(buf@, dest_is_ipv4) is None,
{
    if dest_is_ipv4 {
        if buf.len() == 0 {
            return None;
        }
        let offset = ihl_bytes(buf[0]);
        if buf.len() <= offset {
            None
        } else {
            Some(offset)
        }
    } else {
        Some(0)
    }
}

/// An ICMP datagram answers our SYN when the packet it quotes carries a
/// TCP segment with the SYN's sequence number.
pub open spec fn error_reply_answers(buf: Seq<u8>, dest_is_ipv4: bool, probe_seq: u32) -> bool {
    match quoted_packet_offset(buf, dest_is_ipv4) {
        Some(off) => quoted_probe(buf.skip(off)) == Ok::<
            ExtractedProbe,
            Seq<char>,
        >(ExtractedProbe::Tcp { seq: probe_seq }),
        None => false,
    }
}

/// Whether a datagram from the raw ICMP socket is an error about our SYN.
pub fn error_reply_matches(buf: &[u8], dest_is_ipv4: bool, probe_seq: u32) -> (r: bool)
    ensures
        r == error_reply_answers(buf@, dest_is_ipv4, probe_seq),
{
    match quoted_packet_start(buf, dest_is_ipv4) {
        None => false,
        Some(offset) => {
            let inner = slice_subrange(buf, offset, buf.len());
            match parse_icmp_payload(inner) {
                Ok(ExtractedProbe::Tcp { seq }) => seq == probe_seq,
                Ok(ExtractedProbe::Udp { .. }) => false,
                Err(_) => false,
            }
        },
    }
}

/// A raw TCP segment answers our SYN when it comes from the destination,
/// from the probed port to our source port, and acknowledges the SYN's
/// sequence number plus one (a SYN-ACK or an RST-ACK).
pub open spec fn tcp_reply_answers(
    buf: Seq<u8>,
    dest_is_ipv4: bool,
    from_dest: bool,
    dest_port: u16,
    src_port: u16,
    probe_seq: u32,
) -> bool {
    match tcp_segment_offset(buf, dest_is_ipv4) {
        Some(off) => {
            let seg = buf.skip(off);
            &&& seg.len() >= 20
            &&& from_dest
            &&& u16_at(seg, 0) == dest_port
            &&& u16_at(seg, 2) == src_port
            &&& u32_at(seg, 8) == (probe_seq + 1) % 0x1_0000_0000
        },
        None => false,
    }
}

/// The verdict on a raw TCP segment depends only on its sender and on the
/// ports and acknowledgment number it carries (bytes 0..4 and 8..12 of the
/// TCP header): two segments that agree there, with headers at the same
/// place, get the same verdict whatever their flags (SYN-ACK or RST-ACK),
/// sequence numbers, window or other bytes.
pub proof fn lemma_reply_verdict_reads_ports_and_ack(
    buf1: Seq<u8>,
    buf2: Seq<u8>,
    dest_is_ipv4: bool,
    from_dest: bool,
    dest_port: u16,
    src_port: u16,
    probe_seq: u32,
    off: int,
)
    requires
        tcp_segment_offset(buf1, dest_is_ipv4) == Some(off),
        tcp_segment_offset(buf2, dest_is_ipv4) == Some(off),
        buf1.len() == buf2.len(),
        forall|j: int|
            (0 <= j < 4 || 8 <= j < 12) && off + j < buf1.len() ==> #[trigger] buf1[off + j]
                == buf2[off + j],
    ensures
        tcp_reply_answers(buf1, dest_is_ipv4, from_dest, dest_port, src_port, probe_seq)
            == tcp_reply_answers(buf2, dest_is_ipv4, from_dest, dest_port, src_port, probe_seq),
{
    let s1 = buf1.skip(off);
    let s2 = buf2.skip(off);
    if s1.len() >= 20 {
        assert forall|j: int| 0 <= j < 4 || 8 <= j < 12 implies s1[j] == s2[j] by {
            assert(buf1[off + j] == buf2[off + j]);
        }
        assert(s1[0] == s2[0] && s1[1] == s2[1] && s1[2] == s2[2] && s1[3] == s2[3]);
        assert(s1[8] == s2[8] && s1[9] == s2[9] && s1[10] == s2[10] && s1[11] == s2[11]);
    }
}

/// A segment from the destination whose TCP header carries the probed port
/// as source, the probe's port as destination, and acknowledges the probe's
/// sequence number plus one (wrapping) is the destination's answer, with
/// any flags.
pub proof fn lemma_destination_reply_matches(
    buf: Seq<u8>,
    dest_is_ipv4: bool,
    dest_port: u16,
    src_port: u16,
    probe_seq: u32,
    off: int,
)
    requires
        tcp_segment_offset(buf, dest_is_ipv4) == Some(off),
        buf.len() >= off + 20,
        buf.subrange(off, off + 2) == be16(dest_port),
        buf.subrange(off + 2, off + 4) == be16(src_port),
        buf.subrange(off + 8, off + 12) == be32(
            (if probe_seq == u32::MAX {
                0
            } else {
                probe_seq + 1
            }) as u32,
        ),
    ensures
        tcp_reply_answers(buf, dest_is_ipv4, true, dest_port, src_port, probe_seq),
{
    let seg = buf.skip(off);
    let ack: u32 = (if probe_seq == u32::MAX {
        0
    } else {
        probe_seq + 1
    }) as u32;
    assert(seg[0] == buf.subrange(off, off + 2)[0]);
    assert(seg[1] == buf.subrange(off, off + 2)[1]);
    assert(seg[2] == buf.subrange(off + 2, off + 4)[0]);
    assert(seg[3] == buf.subrange(off + 2, off + 4)[1]);
    assert(seg[8] == buf.subrange(off + 8, off + 12)[0]);
    assert(seg[9] == buf.subrange(off + 8, off + 12)[1]);
    assert(seg[10] == buf.subrange(off + 8, off + 12)[2]);
    assert(seg[11] == buf.subrange(off + 8, off + 12)[3]);
    lemma_be16_value(dest_port);
    lemma_be16_value(src_port);
    lemma_be32_value(ack);
}

proof fn lemma_be16_value(v: u16)
    ensures
        be16(v)[0] * 0x100 + be16(v)[1] == v,
{
    assert(((v / 0x100) as u8) == v / 0x100);
    assert(((v % 0x100) as u8) == v % 0x100);
}

proof fn lemma_be32_value(v: u32)
    ensures
        be32(v)[0] * 0x100_0000 + be32(v)[1] * 0x1_0000 + be32(v)[2] * 0x100 + be32(v)[3] == v,
{
    assert(((v / 0x100_0000) as u8) == v / 0x100_0000);
    assert((((v / 0x1_0000) % 0x100) as u8) == (v / 0x1_0000) % 0x100);
    assert((((v / 0x100) % 0x100) as u8) == (v / 0x100) % 0x100);
    assert(((v % 0x100) as u8) == v % 0x100);
    assert(v == (v / 0x100_0000) * 0x100_0000 + ((v / 0x1_0000) % 0x100) * 0x1_0000 + ((v / 0x100)
        % 0x100) * 0x100 + v % 0x100) by (nonlinear_arith);
}

/// Whether a segment from the raw TCP socket is the destination's answer
/// to our SYN. `from_dest` tells whether its sender is the destination.
pub fn tcp_reply_matches(
    buf: &[u8],
    dest_is_ipv4: bool,
    from_dest: bool,
    dest_port: u16,
    src_port: u16,
    probe_seq: u32,
) -> (r: bool)
    ensures
        r == tcp_reply_answers(buf@, dest_is_ipv4, from_dest, dest_port, src_port, probe_seq),
{
    match tcp_segment_start(buf, dest_is_ipv4) {
        None => false,
        Some(offset) => {
            let seg = slice_subrange(buf, offset, buf.len());
            if seg.len() < 20 {
                return false;
            }
            let src_p: u16 = (seg[0] as u16) * 0x100 + (seg[1] as u16);
            let dst_p: u16 = (seg[2] as u16) * 0x100 + (seg[3] as u16);
            let ack_num: u32 = (seg[8] as u32) * 0x100_0000 + (seg[9] as u32) * 0x1_0000 + (
            seg[10] as u32) * 0x100 + (seg[11] as u32);
            let expected: u32 = if probe_seq == u32::MAX {
                0
            } else {
                probe_seq + 1
            };
            from_dest && src_p == dest_port && dst_p == src_port && ack_num == expected
        },
    }
}

/// How a non-blocking connect, or the pending error read after it, ended.
#[derive(Debug, Clone, Copy, PartialEq, Eq, Structural)]
pub enum ConnectStatus {
    /// The connection was established.
    Connected,
    /// The destination refused the connection (RST; `ECONNREFUSED`).
    Refused,
    /// The destination reset the connection (`ECONNRESET`).
    Reset,
    /// The connection is still being set up.
    InProgress,
    /// Any other error.
    Failed,
}

/// What a stream probe does once its non-blocking connect returned.
#[derive(Debug, Clone, Copy, PartialEq, Eq, Structural)]
pub enum ConnectStep {
    /// The destination answered at once: the hop is the destination.
    Reached,
    /// The SYN is on its way: wait for writability or an ICMP error.
    Poll,
    /// The connect failed: read the error queue once for an ICMP error
    /// that explains it, and give up otherwise.
    CheckErrorQueue,
}

/// The step after a non-blocking connect: an established or refused
/// connection means the destination answered; one in progress is polled;
/// any other failure (a reset among them) is looked up in the error queue.
pub fn after_connect(status: ConnectStatus) -> (r: ConnectStep)
    ensures
        (r is Reached) == (status is Connected || status is Refused),
        (r is Poll) == (status is InProgress),
        (r is CheckErrorQueue) == (status is Reset || status is Failed),
{
    match status {
        ConnectStatus::Connected | ConnectStatus::Refused => ConnectStep::Reached,
        ConnectStatus::InProgress => ConnectStep::Poll,
        ConnectStatus::Reset | ConnectStatus::Failed => ConnectStep::CheckErrorQueue,
    }
}

/// How one TCP probe is sent.
#[derive(Debug, Clone, Copy, PartialEq, Eq, Structural)]
pub enum ProbePath {
    /// A hand-built SYN on a raw TCP socket, with replies read from a raw
    /// ICMP socket and the raw TCP socket.
    Raw,
    /// A non-blocking stream connect, with ICMP errors read from the
    /// socket's error queue.
    Stream,
}

/// The raw path is taken for an IPv4 destination when the raw TCP socket
/// and the raw ICMP socket could both be opened and the TTL could be set
/// on the first; in every other case (no privilege for raw sockets, an
/// IPv6 destination, a failure while preparing them) the probe falls back
/// to the stream path.
pub fn probe_path(dest_is_ipv4: bool, raw_tcp_opened: bool, raw_icmp_opened: bool, ttl_set: bool) -> (r:
    ProbePath)
    ensures
        (r is Raw) == (dest_is_ipv4 && raw_tcp_opened && raw_icmp_opened && ttl_set),
{
    if dest_is_ipv4 && raw_tcp_opened && raw_icmp_opened && ttl_set {
        ProbePath::Raw
    } else {
        ProbePath::Stream
    }
}

/// A connection that was established, refused or reset was answered by the
/// destination itself.
pub fn destination_answered(status: ConnectStatus) -> (r: bool)
    ensures
        r == (status is Connected || status is Refused || status is Reset),
{
    match status {
        ConnectStatus::Connected | ConnectStatus::Refused | ConnectStatus::Reset => true,
        ConnectStatus::InProgress | ConnectStatus::Failed => false,
    }
}

} // verus!
