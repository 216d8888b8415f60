//! Recovery of the probe identity from the packet quoted in an ICMP error.

use crate::packet::tcp::PacketError;
use etherparse::{LaxIpSlice, SlicedPacket, TransportSlice};
use vstd::prelude::*;

verus! {

/// Extracted identification data from an inner probe packet inside an ICMP error payload.
#[derive(Debug, PartialEq, Eq, Clone, Copy, Structural)]
pub enum ExtractedProbe {
    Udp { src_port: u16 },
    Tcp { seq: u32 },
}

/// Type alias for [`ExtractedProbe`].
pub type IcmpExtractedProbe = ExtractedProbe;

/// What slicing bytes as a complete IP packet finds at the transport layer.
#[derive(Debug, PartialEq, Eq, Clone, Copy, Structural)]
pub enum SlicedTransport {
    /// The bytes are not a well-formed IP packet.
    Unparsed,
    /// An IP packet without a transport layer that could be sliced.
    NoTransport,
    /// A UDP datagram with this source port.
    Udp { src_port: u16 },
    /// A TCP segment with this sequence number.
    Tcp { seq: u32 },
    /// Another transport protocol (ICMP, ICMPv6, IGMP).
    Other,
}

/// What etherparse's `SlicedPacket::from_ip` finds in `data`, reduced to
/// the transport facts that probe correlation reads.
pub uninterp spec fn sliced_ip_transport(data: Seq<u8>) -> SlicedTransport;

/// What etherparse's `LaxIpSlice::from_slice` finds in `data`: the IP
/// number of the payload and the payload bytes, or nothing when the IP
/// header itself cannot be read.
pub uninterp spec fn lax_ip_payload(data: Seq<u8>) -> Option<(u8, Seq<u8>)>;

/// Calls etherparse's `SlicedPacket::from_ip` and reports its transport
/// slice: the UDP source port, the TCP sequence number, or which other case
/// came out. Claimed: the report is the value named `sliced_ip_transport`
/// of the bytes.
#[verifier::external_body]
fn slice_ip_transport(data: &[u8]) -> (r: SlicedTransport)
    ensures
        r == sliced_ip_transport(data@),
{
    match SlicedPacket::from_ip(data) {
        Err(_) => SlicedTransport::Unparsed,
        Ok(sliced) => match sliced.transport {
            None => SlicedTransport::NoTransport,
            Some(TransportSlice::Udp(udp)) => SlicedTransport::Udp { src_port: udp.source_port() },
            Some(TransportSlice::Tcp(tcp)) => SlicedTransport::Tcp { seq: tcp.sequence_number() },
            Some(_) => SlicedTransport::Other,
        },
    }
}

/// Calls etherparse's `LaxIpSlice::from_slice` and copies out the payload's
/// IP number and bytes. Claimed: the outcome is the value named
/// `lax_ip_payload` of the bytes.
#[verifier::external_body]
fn slice_lax_ip_payload(data: &[u8]) -> (r: Option<(u8, Vec<u8>)>)
    ensures
        r is None <==> lax_ip_payload(data@) is None,
        r matches Some(p) ==> lax_ip_payload(data@) == Some((p.0, p.1@)),
{
    match LaxIpSlice::from_slice(data) {
        Ok((ip, _)) => Some((ip.payload_ip_number().0, ip.payload().payload.to_vec())),
        Err(_) => None,
    }
}

/// IP number of TCP.
pub const IP_NUMBER_TCP: u8 = 6;

/// IP number of UDP.
pub const IP_NUMBER_UDP: u8 = 17;

/// The message of the error for payloads shorter than eight bytes.
pub open spec fn too_short_message() -> Seq<char> {
    "ICMP payload too short"@
}

/// The message of the error for an inner transport other than UDP or TCP.
pub open spec fn unsupported_transport_message() -> Seq<char> {
    "unsupported inner transport"@
}

/// The message of the error when no inner transport header can be found.
pub open spec fn missing_transport_message() -> Seq<char> {
    "missing or invalid inner transport layer"@
}

/// The outcome of probe extraction, with the error as its message.
pub open spec fn extraction_view(r: Result<ExtractedProbe, PacketError>) -> Result<
    ExtractedProbe,
    Seq<char>,
> {
    match r {
        Ok(p) => Ok(p),
        Err(PacketError::InvalidHeader(m)) => Err(m@),
        Err(PacketError::Serialisation(m)) => Err(seq!['!'] + m@),
    }
}

/// The probe identity that a complete slice yields: `None` when the slice
/// found no transport layer and the lax reading must decide.
pub open spec fn probe_of_sliced(sliced: SlicedTransport) -> Option<
    Result<ExtractedProbe, Seq<char>>,
> {
    match sliced {
        SlicedTransport::Udp { src_port } => Some(Ok(ExtractedProbe::Udp { src_port })),
        SlicedTransport::Tcp { seq } => Some(Ok(ExtractedProbe::Tcp { seq })),
        SlicedTransport::Other => Some(Err(unsupported_transport_message())),
        SlicedTransport::Unparsed | SlicedTransport::NoTransport => None,
    }
}

/// The big-endian 16-bit value of `b[i]`, `b[i + 1]`.
pub open spec fn be_u16_at(b: Seq<u8>, i: int) -> u16 {
    (b[i] * 0x100 + b[i + 1]) as u16
}

/// The big-endian 32-bit value of `b[i..i + 4]`.
pub open spec fn be_u32_at(b: Seq<u8>, i: int) -> u32 {
    (b[i] * 0x100_0000 + b[i + 1] * 0x1_0000 + b[i + 2] * 0x100 + b[i + 3]) as u32
}

/// The probe identity read from the first eight bytes of a (possibly cut
/// off) transport header: the UDP source port, or the TCP sequence number.
pub open spec fn probe_of_lax(lax: Option<(u8, Seq<u8>)>) -> Result<ExtractedProbe, Seq<char>> {
    match lax {
        Some((n, p)) => if n == IP_NUMBER_UDP && p.len() >= 8 {
            Ok(ExtractedProbe::Udp { src_port: be_u16_at(p, 0) })
        } else if n == IP_NUMBER_TCP && p.len() >= 8 {
            Ok(ExtractedProbe::Tcp { seq: be_u32_at(p, 4) })
        } else {
            Err(missing_transport_message())
        },
        None => Err(missing_transport_message()),
    }
}

/// The outcome of [`parse_icmp_payload`] on `data`, in terms of what the
/// two etherparse readings of `data` find.
pub open spec fn quoted_probe(data: Seq<u8>) -> Result<ExtractedProbe, Seq<char>> {
    if data.len() < 8 {
        Err(too_short_message())
    } else {
        match probe_of_sliced(sliced_ip_transport(data)) {
            Some(r) => r,
            None => probe_of_lax(lax_ip_payload(data)),
        }
    }
}

/// When the complete slice of a quoted packet finds no transport layer (the
/// quote is cut short, as RFC 792 allows) and the lax reading of its IP
/// header finds UDP or TCP with at least the first eight bytes of that
/// header, the probe is identified from those bytes: the UDP source port is
/// the big-endian value of bytes 0..2, the TCP sequence number that of
/// bytes 4..8.
pub proof fn lemma_cut_off_quote_identified(data: Seq<u8>, number: u8, payload: Seq<u8>)
    requires
        data.len() >= 8,
        sliced_ip_transport(data) is Unparsed || sliced_ip_transport(data) is NoTransport,
        lax_ip_payload(data) == Some((number, payload)),
        number == 17 || number == 6,
        payload.len() >= 8,
    ensures
        number == 17 ==> quoted_probe(data) == Ok::<ExtractedProbe, Seq<char>>(
            ExtractedProbe::Udp { src_port: (payload[0] * 256 + payload[1]) as u16 },
        ),
        number == 6 ==> quoted_probe(data) == Ok::<ExtractedProbe, Seq<char>>(
            ExtractedProbe::Tcp {
                seq: (payload[4] * 0x100_0000 + payload[5] * 0x1_0000 + payload[6] * 0x100
                    + payload[7]) as u32,
            },
        ),
{
}

/// When the complete slice finds a UDP datagram or a TCP segment, its
/// source port or sequence number identifies the probe, whatever the lax
/// reading would say; another transport is refused; fewer than eight bytes
/// are always refused.
pub proof fn lemma_complete_quote_identified(data: Seq<u8>)
    ensures
        data.len() < 8 ==> quoted_probe(data) is Err,
        data.len() >= 8 ==> match sliced_ip_transport(data) {
            SlicedTransport::Udp { src_port } => quoted_probe(data) == Ok::<
                ExtractedProbe,
                Seq<char>,
            >(ExtractedProbe::Udp { src_port }),
            SlicedTransport::Tcp { seq } => quoted_probe(data) == Ok::<ExtractedProbe, Seq<char>>(
                ExtractedProbe::Tcp { seq },
            ),
            SlicedTransport::Other => quoted_probe(data) is Err,
            _ => true,
        },
{
}

/// When neither reading finds a UDP or TCP header of eight bytes, the
/// probe cannot be identified.
pub proof fn lemma_unidentified_quote_refused(data: Seq<u8>)
    requires
        sliced_ip_transport(data) is Unparsed || sliced_ip_transport(data) is NoTransport,
        match lax_ip_payload(data) {
            Some((n, p)) => !((n == 17 || n == 6) && p.len() >= 8),
            None => true,
        },
    ensures
        quoted_probe(data) is Err,
{
}

/// Decides the probe identity from a complete slice's transport layer;
/// `None` means the slice found none and the lax reading must decide.
pub fn probe_from_sliced(sliced: SlicedTransport) -> (r: Option<Result<ExtractedProbe, PacketError>>)
    ensures
        r is None <==> probe_of_sliced(sliced) is None,
        r matches Some(x) ==> probe_of_sliced(sliced) == Some(extraction_view(x)),
{
    match sliced {
        SlicedTransport::Udp { src_port } => Some(Ok(ExtractedProbe::Udp { src_port })),
        SlicedTransport::Tcp { seq } => Some(Ok(ExtractedProbe::Tcp { seq })),
        SlicedTransport::Other => {
            let msg = String::from_str("unsupported inner transport");
            proof {
                reveal_strlit("unsupported inner transport");
            }
            Some(Err(PacketError::InvalidHeader(msg)))
        },
        SlicedTransport::Unparsed | SlicedTransport::NoTransport => None,
    }
}

/// Decides the probe identity from a lax reading of the IP packet: the
/// payload's IP number and bytes, when the IP header could be read.
pub fn probe_from_lax_payload(lax: &Option<(u8, Vec<u8>)>) -> (r: Result<ExtractedProbe, PacketError>)
    ensures
        extraction_view(r) == probe_of_lax(
            match lax {
                Some(p) => Some((p.0, p.1@)),
                None => None,
            },
        ),
{
    match lax {
        Some((n, payload)) => {
            if *n == IP_NUMBER_UDP && payload.len() >= 8 {
                let src_port: u16 = (payload[0] as u16) * 0x100 + (payload[1] as u16);
                return Ok(ExtractedProbe::Udp { src_port });
            } else if *n == IP_NUMBER_TCP && payload.len() >= 8 {
                let seq: u32 = (payload[4] as u32) * 0x100_0000 + (payload[5] as u32) * 0x1_0000
                    + (payload[6] as u32) * 0x100 + (payload[7] as u32);
                return Ok(ExtractedProbe::Tcp { seq });
            }
        },
        None => {},
    }
    proof {
        reveal_strlit("missing or invalid inner transport layer");
    }
    Err(PacketError::InvalidHeader(String::from_str("missing or invalid inner transport layer")))
}

/// Slices an incoming ICMP datagram and recovers inner probe identification data.
pub fn parse_icmp_payload(data: &[u8]) -> (r: Result<ExtractedProbe, PacketError>)
    ensures
        extraction_view(r) == quoted_probe(data@),
{
    if data.len() < 8 {
        proof {
            reveal_strlit("ICMP payload too short");
        }
        return Err(PacketError::InvalidHeader(String::from_str("ICMP payload too short")));
    }
    match probe_from_sliced(slice_ip_transport(data)) {
        Some(r) => r,
        None => probe_from_lax_payload(&slice_lax_ip_payload(data)),
    }
}

/// Alias for [`parse_icmp_payload`].
pub fn parse_icmp_time_exceeded_payload(data: &[u8]) -> (r: Result<IcmpExtractedProbe, PacketError>)
    ensures
        extraction_view(r) == quoted_probe(data@),
{
    parse_icmp_payload(data)
}

} // verus!
