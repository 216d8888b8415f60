//! Traceroute library: probe planning, hop reduction, packet codecs,
//! configuration validation and daemon bookkeeping, with contracts
//! checked by Verus.

pub mod cli;
pub mod config;
pub mod duration;
pub mod engine;
pub mod net;
pub mod packet;
pub mod service;
pub mod telemetry;
pub mod text;

use vstd::prelude::*;

verus! {

/// Identifier of this application, used when naming tracers.
pub const APPLICATION_NAME: &'static str = "github.com/jimmystewpot/traceroute";

/// Format string for tracer names.
pub const TRACER_NAME_FORMAT: &'static str = "{}/traceroute";

} // verus!
