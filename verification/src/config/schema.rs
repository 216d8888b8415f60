//! Configuration schema definitions and validation data structures.

use crate::duration::Duration;
use vstd::prelude::*;

verus! {

/// Supported schema version for traceroute configuration.
pub const CURRENT_SCHEMA_VERSION: &'static str = "1.0.0";

/// Default number of concurrent parallel probe requests.
pub const DEFAULT_PARALLEL_REQUESTS: u16 = 16;

/// Default maximum number of hops to traverse.
pub const DEFAULT_MAX_HOPS: u16 = 60;

/// Default number of probe queries sent to each hop.
pub const DEFAULT_NUM_QUERIES: u16 = 3;

/// Default source or base destination port for probes.
pub const DEFAULT_SOURCE_PORT: u16 = 80;

/// Default interval between recurring traceroute executions, in seconds.
pub const DEFAULT_INTERVAL_SECS: u64 = 60;

/// Default probe timeout, in seconds.
pub const DEFAULT_TIMEOUT_SECS: u64 = 5;

/// Errors encountered during configuration parsing, deserialisation, or validation.
#[derive(Debug, Clone, PartialEq, Eq)]
pub enum ConfigError {
    /// Failure during YAML parsing or deserialisation, with the parser's message.
    Yaml(String),
    /// The configuration specifies an unsupported schema version.
    UnsupportedSchema(String),
    /// A field or structure failed semantic validation.
    Validation(String),
}

/// Root configuration model.
#[derive(Debug, Clone, PartialEq, Eq)]
pub struct TraceConfig {
    /// Schema version string (must equal [`CURRENT_SCHEMA_VERSION`]).
    pub schema_version: String,
    /// List of destination hostnames or IP addresses to probe.
    pub destinations: Vec<String>,
    /// Global parameters governing traceroute execution.
    pub globals: TraceConfigGlobal,
    /// OpenTelemetry distributed tracing exporter parameters.
    pub opentelemetry: TraceConfigOtel,
    /// Health-check HTTP server configuration.
    pub healthcheck: TraceConfigHealthCheck,
}

/// Global settings governing traceroute behaviour.
#[derive(Debug, Clone, PartialEq, Eq)]
pub struct TraceConfigGlobal {
    /// Transport protocol for probes ("udp" or "tcp").
    pub protocol: String,
    /// Maximum number of hops before terminating the trace.
    pub max_hops: u16,
    /// Number of queries per hop.
    pub number_queries: u16,
    /// Maximum number of parallel requests permitted in flight.
    pub parallel_requests: u16,
    /// Probe timeout duration.
    pub timeout: Duration,
    /// Source or base port for probes.
    pub source_port: u16,
    /// Execution interval between recurring daemon runs.
    pub interval: Duration,
}

/// OpenTelemetry exporter configuration.
#[derive(Debug, Clone, PartialEq, Eq)]
pub struct TraceConfigOtel {
    /// Destination endpoint hostname or IP address.
    pub destination: String,
    /// Whether TLS is enabled for the exporter connection.
    pub tls: bool,
    /// Port number of the OTLP collector.
    pub port: u16,
    /// Whether to export via gRPC (true) or HTTP (false).
    pub grpc: bool,
    /// Whether linked spans across consecutive trace iterations are enabled.
    pub linked_spans: bool,
}

/// Health-check HTTP server endpoint configuration.
#[derive(Debug, Clone, PartialEq, Eq)]
pub struct TraceConfigHealthCheck {
    /// URL path for the health-check handler (e.g. "/_healthcheck").
    pub path: String,
    /// Whether the health-check server is enabled.
    pub enabled: bool,
    /// Listening port for the health-check HTTP server.
    pub port: u16,
}

/// The maximum hop count used when the configuration gives none.
pub fn default_max_hops() -> (r: u16)
    ensures
        r == DEFAULT_MAX_HOPS,
{
    DEFAULT_MAX_HOPS
}

/// The per-hop query count used when the configuration gives none.
pub fn default_number_queries() -> (r: u16)
    ensures
        r == DEFAULT_NUM_QUERIES,
{
    DEFAULT_NUM_QUERIES
}

/// The parallel request bound used when the configuration gives none.
pub fn default_parallel_requests() -> (r: u16)
    ensures
        r == DEFAULT_PARALLEL_REQUESTS,
{
    DEFAULT_PARALLEL_REQUESTS
}

/// The probe timeout used when the configuration gives none: five seconds.
pub fn default_timeout() -> (r: Duration)
    ensures
        r == Duration::from_secs_spec(DEFAULT_TIMEOUT_SECS),
{
    Duration::from_secs(DEFAULT_TIMEOUT_SECS)
}

/// The probe port used when the configuration gives none.
pub fn default_source_port() -> (r: u16)
    ensures
        r == DEFAULT_SOURCE_PORT,
{
    DEFAULT_SOURCE_PORT
}

/// The interval between runs used when the configuration gives none: one minute.
pub fn default_interval() -> (r: Duration)
    ensures
        r == Duration::from_secs_spec(DEFAULT_INTERVAL_SECS),
{
    Duration::from_secs(DEFAULT_INTERVAL_SECS)
}

/// The probing protocol used when the configuration gives none: "tcp".
pub fn default_protocol() -> (r: String)
    ensures
        r@ == "tcp"@,
{
    proof {
        reveal_strlit("tcp");
    }
    String::from_str("tcp")
}

impl Default for TraceConfigOtel {
    /// The collector settings used where the configuration gives none: a
    /// collector at 127.0.0.1:4317 over gRPC without TLS, and no linked spans.
    fn default() -> (r: Self)
        ensures
            r.destination@ == "127.0.0.1"@,
            !r.tls,
            r.port == 4317,
            r.grpc,
            !r.linked_spans,
    {
        proof {
            reveal_strlit("127.0.0.1");
        }
        TraceConfigOtel {
            destination: String::from_str("127.0.0.1"),
            tls: false,
            port: 4317,
            grpc: true,
            linked_spans: false,
        }
    }
}

impl Default for TraceConfigHealthCheck {
    /// The health-check settings used where the configuration gives none:
    /// enabled, on port 8080, under "/_healthcheck".
    fn default() -> (r: Self)
        ensures
            r.path@ == "/_healthcheck"@,
            r.enabled,
            r.port == 8080,
    {
        proof {
            reveal_strlit("/_healthcheck");
        }
        TraceConfigHealthCheck { path: String::from_str("/_healthcheck"), enabled: true, port: 8080 }
    }
}

impl Default for TraceConfigGlobal {
    fn default() -> (r: Self)
        ensures
            r.protocol@ == "tcp"@,
            r.max_hops == DEFAULT_MAX_HOPS,
            r.number_queries == DEFAULT_NUM_QUERIES,
            r.parallel_requests == DEFAULT_PARALLEL_REQUESTS,
            r.timeout == Duration::from_secs_spec(DEFAULT_TIMEOUT_SECS),
            r.source_port == DEFAULT_SOURCE_PORT,
            r.interval == Duration::from_secs_spec(DEFAULT_INTERVAL_SECS),
    {
        Self {
            protocol: default_protocol(),
            max_hops: default_max_hops(),
            number_queries: default_number_queries(),
            parallel_requests: default_parallel_requests(),
            timeout: default_timeout(),
            source_port: default_source_port(),
            interval: default_interval(),
        }
    }
}

} // verus!
