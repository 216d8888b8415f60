//! Command-line interface definitions and the decisions of destination
//! resolution.

pub mod args;

use crate::cli::args::CommonTraceOptions;
use crate::net::IpAddr;
use vstd::prelude::*;

verus! {

/// Top-level command-line parser for traceroute.
#[derive(Debug)]
pub struct Cli {
    /// Subcommand to execute.
    pub command: Commands,
}

/// Available subcommands supported by the CLI.
#[derive(Debug)]
pub enum Commands {
    /// UDP traceroute mode.
    Udp(CommonTraceOptions),
    /// TCP traceroute mode.
    Tcp(CommonTraceOptions),
    /// Run as a daemon service periodically executing traceroutes.
    Service {
        /// Configuration file path.
        config_file: String,
        /// Validate configuration file syntax and structure without executing probes.
        validate: bool,
    },
    /// Generate a sample configuration file and output to stdout.
    Generate,
}

/// Why a destination could not be resolved.
#[derive(Debug, Clone, PartialEq, Eq)]
pub enum ResolveError {
    /// The lookup of this target did not finish in time.
    TimedOut(String),
    /// The resolver failed, with its message.
    Lookup(String),
    /// The lookup of this target gave no address.
    NoAddresses(String),
}

/// The message of a resolution error.
pub open spec fn resolve_error_text(e: ResolveError) -> Seq<char> {
    match e {
        ResolveError::TimedOut(t) => "DNS resolution timed out for "@ + t@,
        ResolveError::Lookup(m) => m@,
        ResolveError::NoAddresses(t) => "destination "@ + t@ + " failed to resolve"@,
    }
}

impl ResolveError {
    /// The message of the error.
    pub fn message(&self) -> (r: String)
        ensures
            r@ == resolve_error_text(*self),
    {
        proof {
            reveal_strlit("DNS resolution timed out for ");
            reveal_strlit("destination ");
            reveal_strlit(" failed to resolve");
        }
        match self {
            ResolveError::TimedOut(t) => {
                let mut m = String::from_str("DNS resolution timed out for ");
                m.append(t.as_str());
                m
            },
            ResolveError::Lookup(msg) => msg.clone(),
            ResolveError::NoAddresses(t) => {
                let mut m = String::from_str("destination ");
                m.append(t.as_str());
                m.append(" failed to resolve");
                m
            },
        }
    }
}

/// Accepts the addresses a lookup of `target` gave: an empty list is an error.
pub fn resolved_addresses(target: &str, ips: Vec<IpAddr>) -> (r: Result<Vec<IpAddr>, ResolveError>)
    ensures
        ips@.len() > 0 ==> (r matches Ok(v) && v@ == ips@),
        ips@.len() == 0 ==> (r matches Err(e) && e matches ResolveError::NoAddresses(t) && t@
            == target@),
{
    if ips.len() == 0 {
        Err(ResolveError::NoAddresses(String::from_str(target)))
    } else {
        Ok(ips)
    }
}

} // verus!
