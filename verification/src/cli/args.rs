//! Command-line argument structures.

use crate::duration::Duration;
use vstd::prelude::*;

verus! {

/// Common options shared across traceroute commands.
#[derive(Debug, Clone)]
pub struct CommonTraceOptions {
    /// Maximum number of hops (time-to-live) to traverse.
    pub max_hops: u16,
    /// Number of probe queries to send per hop.
    pub n_queries: u16,
    /// Maximum number of parallel requests in flight.
    pub parallel_requests: u16,
    /// Response timeout duration before considering a probe dropped.
    pub timeout: Duration,
    /// Source port or destination port depending on traceroute mode.
    pub trace_route_port: u16,
    /// OpenTelemetry collector destination hostname or IP.
    pub otel_dest: String,
    /// Enable TLS when exporting traces to the OpenTelemetry collector.
    pub otel_tls: bool,
    /// Use gRPC for exporting OpenTelemetry traces instead of HTTP.
    pub otel_grpc: bool,
    /// Port of the OpenTelemetry collector endpoint.
    pub otel_port: u16,
    /// Enable linked spans in OpenTelemetry traces to link consecutive runs.
    pub otel_linked_spans: bool,
    /// Target destination address or hostname to trace.
    pub destination: String,
    /// Print traceroute hop results to stdout.
    pub print_results: bool,
}

} // verus!
