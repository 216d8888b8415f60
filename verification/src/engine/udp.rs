//! Decisions of the UDP probing engine.

use crate::duration::Duration;
use crate::engine::hop::{hop_reaches, TracerouteHop};
use crate::net::IpAddr;
use vstd::prelude::*;

verus! {

/// ICMP type 11 — Time Exceeded (IPv4, RFC 792). Emitted by intermediate routers
/// when the packet TTL reaches zero before arriving at the destination.
pub const ICMP_V4_TIME_EXCEEDED: u8 = 11;

/// ICMP type 3 — Destination Unreachable (IPv4, RFC 792). Received when the probe
/// reaches the target host but a port or protocol is inaccessible.
pub const ICMP_V4_DEST_UNREACHABLE: u8 = 3;

/// ICMPv6 type 3 — Time Exceeded (IPv6, RFC 4443). Emitted by intermediate routers
/// when the hop limit reaches zero before arriving at the destination.
pub const ICMP_V6_TIME_EXCEEDED: u8 = 3;

/// ICMPv6 type 1 — Destination Unreachable (IPv6, RFC 4443). Received when the probe
/// reaches the target host but a port is inaccessible.
pub const ICMP_V6_DEST_UNREACHABLE: u8 = 1;

/// ICMP code of Port Unreachable under Destination Unreachable (IPv4).
pub const ICMP_V4_PORT_UNREACHABLE: u8 = 3;

/// ICMPv6 code of Port Unreachable under Destination Unreachable.
pub const ICMP_V6_PORT_UNREACHABLE: u8 = 4;

/// The `(time_exceeded, dest_unreachable)` ICMP types for the family of `dest`.
pub open spec fn icmp_types_of(dest: IpAddr) -> (u8, u8) {
    if dest is V6 {
        (ICMP_V6_TIME_EXCEEDED, ICMP_V6_DEST_UNREACHABLE)
    } else {
        (ICMP_V4_TIME_EXCEEDED, ICMP_V4_DEST_UNREACHABLE)
    }
}

/// Returns expected ICMP `(time_exceeded, dest_unreachable)` message types
/// based on the target IP protocol version (RFC 792 for IPv4, RFC 4443 for IPv6).
pub fn icmp_types_for_dest(dest: IpAddr) -> (r: (u8, u8))
    ensures
        r == icmp_types_of(dest),
{
    if dest.is_ipv6() {
        (ICMP_V6_TIME_EXCEEDED, ICMP_V6_DEST_UNREACHABLE)
    } else {
        (ICMP_V4_TIME_EXCEEDED, ICMP_V4_DEST_UNREACHABLE)
    }
}

/// Whether `icmp_code` is Port Unreachable in the ICMP family of `dest`.
pub open spec fn port_unreachable_code(dest: IpAddr, icmp_code: u8) -> bool {
    (dest is V4 && icmp_code == ICMP_V4_PORT_UNREACHABLE) || (dest is V6 && icmp_code
        == ICMP_V6_PORT_UNREACHABLE)
}

/// The hop that an ICMP error about a probe towards `dest` reports: a Time
/// Exceeded names the router on the path; a Destination Unreachable names
/// the destination when the destination itself answered with Port
/// Unreachable, and the answering router otherwise; other types report
/// nothing.
pub open spec fn icmp_error_hop(
    dest: IpAddr,
    ttl: u16,
    offender: IpAddr,
    icmp_type: u8,
    icmp_code: u8,
    rtt: Duration,
) -> Option<TracerouteHop> {
    if icmp_type == icmp_types_of(dest).0 {
        Some(TracerouteHop { success: true, address: Some(offender), ttl, rtt: Some(rtt) })
    } else if icmp_type == icmp_types_of(dest).1 {
        if offender == dest && port_unreachable_code(dest, icmp_code) {
            Some(TracerouteHop { success: true, address: Some(dest), ttl, rtt: Some(rtt) })
        } else {
            Some(TracerouteHop { success: true, address: Some(offender), ttl, rtt: Some(rtt) })
        }
    } else {
        None
    }
}

/// Classifies an ICMP error read from a probe socket's error queue.
pub fn hop_from_icmp_error(
    dest: IpAddr,
    ttl: u16,
    offender: IpAddr,
    icmp_type: u8,
    icmp_code: u8,
    rtt: Duration,
) -> (r: Option<TracerouteHop>)
    ensures
        r == icmp_error_hop(dest, ttl, offender, icmp_type, icmp_code, rtt),
{
    let (time_exceeded_type, dest_unreach_type) = icmp_types_for_dest(dest);
    if icmp_type == time_exceeded_type {
        Some(TracerouteHop { success: true, address: Some(offender), ttl, rtt: Some(rtt) })
    } else if icmp_type == dest_unreach_type {
        let is_port_unreachable = (dest.is_ipv4() && icmp_code == ICMP_V4_PORT_UNREACHABLE) || (
        dest.is_ipv6() && icmp_code == ICMP_V6_PORT_UNREACHABLE);
        if offender == dest && is_port_unreachable {
            Some(TracerouteHop { success: true, address: Some(dest), ttl, rtt: Some(rtt) })
        } else {
            Some(TracerouteHop { success: true, address: Some(offender), ttl, rtt: Some(rtt) })
        }
    } else {
        None
    }
}

/// An ICMP error sent by any host other than the destination never counts
/// as the destination being reached, whatever its type and code; only Time
/// Exceeded and Destination Unreachable give a hop.
pub proof fn lemma_only_destination_reaches(
    dest: IpAddr,
    ttl: u16,
    offender: IpAddr,
    icmp_type: u8,
    icmp_code: u8,
    rtt: Duration,
)
    ensures
        offender != dest ==> match icmp_error_hop(dest, ttl, offender, icmp_type, icmp_code, rtt) {
            Some(h) => h.address != Some(dest),
            None => true,
        },
        icmp_error_hop(dest, ttl, offender, icmp_type, icmp_code, rtt) is Some <==> (icmp_type
            == icmp_types_of(dest).0 || icmp_type == icmp_types_of(dest).1),
{
}

/// Every Time Exceeded and every Destination Unreachable (IPv4 types 11 and
/// 3, ICMPv6 types 3 and 1), whatever its code, is an answered probe: a
/// successful hop at the sender's address, measured with the probe's TTL
/// and round-trip time. So a Destination Unreachable sent by the
/// destination itself (Port Unreachable, or an administrative reject)
/// reaches it, and one sent by a router is a successful hop at that router.
pub proof fn lemma_error_reply_is_answered_hop(
    dest: IpAddr,
    ttl: u16,
    offender: IpAddr,
    icmp_type: u8,
    icmp_code: u8,
    rtt: Duration,
)
    requires
        (dest is V4 && (icmp_type == 11 || icmp_type == 3)) || (dest is V6 && (icmp_type == 3
            || icmp_type == 1)),
    ensures
        icmp_error_hop(dest, ttl, offender, icmp_type, icmp_code, rtt) == Some(
            TracerouteHop { success: true, address: Some(offender), ttl, rtt: Some(rtt) },
        ),
        offender == dest ==> hop_reaches(
            icmp_error_hop(dest, ttl, offender, icmp_type, icmp_code, rtt)->0,
            dest,
        ),
{
}

/// Any other ICMP type gives no hop: the probe keeps waiting.
pub proof fn lemma_other_errors_ignored(
    dest: IpAddr,
    ttl: u16,
    offender: IpAddr,
    icmp_type: u8,
    icmp_code: u8,
    rtt: Duration,
)
    requires
        !((dest is V4 && (icmp_type == 11 || icmp_type == 3)) || (dest is V6 && (icmp_type == 3
            || icmp_type == 1))),
    ensures
        icmp_error_hop(dest, ttl, offender, icmp_type, icmp_code, rtt) is None,
{
}

/// The outcome of a probe that got no usable answer.
pub fn failed_hop(ttl: u16) -> (r: TracerouteHop)
    ensures
        r == (TracerouteHop { success: false, address: None, ttl, rtt: None }),
{
    TracerouteHop { success: false, address: None, ttl, rtt: None }
}

/// The outcome of a probe answered directly on its socket by `peer`.
pub fn hop_from_direct_reply(ttl: u16, peer: Option<IpAddr>, rtt: Duration) -> (r: TracerouteHop)
    ensures
        r == (TracerouteHop { success: true, address: peer, ttl, rtt: Some(rtt) }),
{
    TracerouteHop { success: true, address: peer, ttl, rtt: Some(rtt) }
}

} // verus!
