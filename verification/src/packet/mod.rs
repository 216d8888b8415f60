//! Probe packet construction and the parsing of ICMP error payloads.

pub mod icmp;
pub mod quic;
pub mod tcp;
