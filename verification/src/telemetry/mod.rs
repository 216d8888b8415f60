//! Telemetry metadata: trace baggage and the collector endpoint.

pub mod baggage;

use crate::text::{decimal, decimal_text};
use vstd::prelude::*;

verus! {

/// The URL of the OTLP collector at `endpoint`:`port`, over HTTPS when
/// `use_tls` holds and plain HTTP otherwise.
pub open spec fn collector_url_text(endpoint: Seq<char>, port: u16, use_tls: bool) -> Seq<char> {
    (if use_tls {
        "https"@
    } else {
        "http"@
    }) + "://"@ + endpoint + ":"@ + decimal(port as nat)
}

/// Builds the URL of the OTLP collector endpoint.
pub fn collector_url(endpoint: &str, port: u16, use_tls: bool) -> (r: String)
    ensures
        r@ == collector_url_text(endpoint@, port, use_tls),
{
    proof {
        reveal_strlit("https");
        reveal_strlit("http");
        reveal_strlit("://");
        reveal_strlit(":");
    }
    let mut url = if use_tls {
        String::from_str("https")
    } else {
        String::from_str("http")
    };
    url.append("://");
    url.append(endpoint);
    url.append(":");
    let port_text = decimal_text(port as u64);
    url.append(port_text.as_str());
    url
}

} // verus!
