//! Configuration management, validation, and sample generation.

pub mod schema;

pub use schema::{
    default_interval, default_max_hops, default_protocol, default_number_queries, default_parallel_requests,
    default_source_port, default_timeout, ConfigError, TraceConfig, TraceConfigGlobal,
    TraceConfigHealthCheck, TraceConfigOtel, CURRENT_SCHEMA_VERSION, DEFAULT_INTERVAL_SECS,
    DEFAULT_MAX_HOPS, DEFAULT_NUM_QUERIES, DEFAULT_PARALLEL_REQUESTS, DEFAULT_SOURCE_PORT,
    DEFAULT_TIMEOUT_SECS,
};
use crate::duration::Duration;
use vstd::prelude::*;

verus! {

/// The message of the first semantic constraint that `c` breaks, if any.
pub open spec fn validation_message(c: TraceConfig) -> Option<Seq<char>> {
    if c.destinations@.len() == 0 {
        Some("destinations list must not be empty"@)
    } else if c.globals.protocol@ != "udp"@ && c.globals.protocol@ != "tcp"@ {
        Some("unsupported protocol '"@ + c.globals.protocol@ + "'; must be 'udp' or 'tcp'"@)
    } else if c.globals.timeout.secs == 0 && c.globals.timeout.nanos == 0 {
        Some("globals.timeout must be greater than zero"@)
    } else if c.globals.interval.secs == 0 && c.globals.interval.nanos == 0 {
        Some("globals.interval must be greater than zero"@)
    } else if c.globals.source_port == 0 {
        Some("globals.source-port must be between 1 and 65535"@)
    } else if c.healthcheck.port == 0 {
        Some("healthcheck.port must be between 1 and 65535"@)
    } else {
        None
    }
}

impl TraceConfig {
    /// Validates semantic constraints beyond schema-version and YAML structure.
    pub fn validate(&self) -> (r: Result<(), ConfigError>)
        ensures
            r is Ok <==> validation_message(*self) is None,
            r matches Err(e) ==> e matches ConfigError::Validation(m) && validation_message(
                *self,
            ) == Some(m@),
    {
        proof {
            reveal_strlit("destinations list must not be empty");
            reveal_strlit("udp");
            reveal_strlit("tcp");
            reveal_strlit("unsupported protocol '");
            reveal_strlit("'; must be 'udp' or 'tcp'");
            reveal_strlit("globals.timeout must be greater than zero");
            reveal_strlit("globals.interval must be greater than zero");
            reveal_strlit("globals.source-port must be between 1 and 65535");
            reveal_strlit("healthcheck.port must be between 1 and 65535");
        }
        if self.destinations.len() == 0 {
            return Err(
                ConfigError::Validation(String::from_str("destinations list must not be empty")),
            );
        }
        let udp = String::from_str("udp");
        let tcp = String::from_str("tcp");
        if !(self.globals.protocol == udp) && !(self.globals.protocol == tcp) {
            let mut msg = String::from_str("unsupported protocol '");
            msg.append(self.globals.protocol.as_str());
            msg.append("'; must be 'udp' or 'tcp'");
            return Err(ConfigError::Validation(msg));
        }
        if self.globals.timeout.is_zero() {
            return Err(
                ConfigError::Validation(
                    String::from_str("globals.timeout must be greater than zero"),
                ),
            );
        }
        if self.globals.interval.is_zero() {
            return Err(
                ConfigError::Validation(
                    String::from_str("globals.interval must be greater than zero"),
                ),
            );
        }
        if self.globals.source_port == 0 {
            return Err(
                ConfigError::Validation(
                    String::from_str("globals.source-port must be between 1 and 65535"),
                ),
            );
        }
        if self.healthcheck.port == 0 {
            return Err(
                ConfigError::Validation(
                    String::from_str("healthcheck.port must be between 1 and 65535"),
                ),
            );
        }
        Ok(())
    }
}

/// A configuration passes validation exactly when it names at least one
/// destination, its protocol is "udp" or "tcp", its timeout and interval
/// are positive (any positive length, however short), and its source port
/// and health-check port are not zero. The interval alone is the cause of a
/// rejection only when the interval is zero.
pub proof fn lemma_validation_accepts_exactly(c: TraceConfig)
    ensures
        validation_message(c) is None <==> {
            &&& c.destinations@.len() > 0
            &&& (c.globals.protocol@ == "udp"@ || c.globals.protocol@ == "tcp"@)
            &&& (c.globals.timeout.secs > 0 || c.globals.timeout.nanos > 0)
            &&& (c.globals.interval.secs > 0 || c.globals.interval.nanos > 0)
            &&& c.globals.source_port != 0
            &&& c.healthcheck.port != 0
        },
        validation_message(c) == Some("globals.interval must be greater than zero"@) ==> (
        c.globals.interval.secs == 0 && c.globals.interval.nanos == 0),
        validation_message(c) == Some("globals.timeout must be greater than zero"@) ==> (
        c.globals.timeout.secs == 0 && c.globals.timeout.nanos == 0),
{
    reveal_strlit("globals.interval must be greater than zero");
    reveal_strlit("globals.timeout must be greater than zero");
    reveal_strlit("destinations list must not be empty");
    reveal_strlit("unsupported protocol '");
    reveal_strlit("globals.source-port must be between 1 and 65535");
    reveal_strlit("healthcheck.port must be between 1 and 65535");
    let interval_msg = "globals.interval must be greater than zero"@;
    let timeout_msg = "globals.timeout must be greater than zero"@;
    assert(interval_msg[8] != timeout_msg[8]);
    assert(interval_msg[0] != "destinations list must not be empty"@[0]);
    assert(timeout_msg[0] != "destinations list must not be empty"@[0]);
    assert(interval_msg[0] != ("unsupported protocol '"@ + c.globals.protocol@
        + "'; must be 'udp' or 'tcp'"@)[0]);
    assert(timeout_msg[0] != ("unsupported protocol '"@ + c.globals.protocol@
        + "'; must be 'udp' or 'tcp'"@)[0]);
    assert(interval_msg[8] != "globals.source-port must be between 1 and 65535"@[8]);
    assert(timeout_msg[8] != "globals.source-port must be between 1 and 65535"@[8]);
    assert(interval_msg[0] != "healthcheck.port must be between 1 and 65535"@[0]);
    assert(timeout_msg[0] != "healthcheck.port must be between 1 and 65535"@[0]);
}

/// Accepts a parsed configuration: its `schema-version` must equal
/// [`CURRENT_SCHEMA_VERSION`] and it must meet the semantic constraints of
/// [`TraceConfig::validate`]; the version is checked first.
pub fn check_loaded_config(config: TraceConfig) -> (r: Result<TraceConfig, ConfigError>)
    ensures
        config.schema_version@ != "1.0.0"@ ==> (r matches Err(e) && e matches ConfigError::UnsupportedSchema(v)
            && v@ == config.schema_version@),
        config.schema_version@ == "1.0.0"@ && validation_message(config) is Some ==> (r matches Err(e)
            && e matches ConfigError::Validation(m) && validation_message(config) == Some(m@)),
        config.schema_version@ == "1.0.0"@ && validation_message(config) is None ==> r == Ok::<
            TraceConfig,
            ConfigError,
        >(config),
{
    proof {
        reveal_strlit("1.0.0");
    }
    let current = String::from_str(CURRENT_SCHEMA_VERSION);
    if !(config.schema_version == current) {
        return Err(ConfigError::UnsupportedSchema(config.schema_version));
    }
    match config.validate() {
        Ok(()) => Ok(config),
        Err(e) => Err(e),
    }
}

/// The destinations of the sample configuration.
pub open spec fn sample_destinations() -> Seq<Seq<char>> {
    seq!["first-test-domain.org"@, "second-test-domain.org"@]
}

/// A pre-populated configuration matching schema v1.0.0, suitable for
/// initialisation and customisation by operators.
pub fn sample_config() -> (r: TraceConfig)
    ensures
        r.schema_version@ == "1.0.0"@,
        r.destinations@.len() == 2,
        r.destinations@[0]@ == "first-test-domain.org"@,
        r.destinations@[1]@ == "second-test-domain.org"@,
        r.globals.protocol@ == "tcp"@,
        r.globals.max_hops == DEFAULT_MAX_HOPS,
        r.globals.number_queries == DEFAULT_NUM_QUERIES,
        r.globals.parallel_requests == DEFAULT_PARALLEL_REQUESTS,
        r.globals.timeout == Duration::from_secs_spec(DEFAULT_TIMEOUT_SECS),
        r.globals.source_port == DEFAULT_SOURCE_PORT,
        r.globals.interval == Duration::from_secs_spec(DEFAULT_INTERVAL_SECS),
        r.opentelemetry.destination@ == "127.0.0.1"@,
        !r.opentelemetry.tls,
        r.opentelemetry.port == 4317,
        r.opentelemetry.grpc,
        !r.opentelemetry.linked_spans,
        r.healthcheck.path@ == "/_healthcheck"@,
        r.healthcheck.enabled,
        r.healthcheck.port == 8080,
        validation_message(r) is None,
{
    proof {
        reveal_strlit("1.0.0");
        reveal_strlit("first-test-domain.org");
        reveal_strlit("second-test-domain.org");
        reveal_strlit("tcp");
        reveal_strlit("udp");
        reveal_strlit("127.0.0.1");
        reveal_strlit("/_healthcheck");
    }
    let destinations: Vec<String> = vec![
        String::from_str("first-test-domain.org"),
        String::from_str("second-test-domain.org"),
    ];
    TraceConfig {
        schema_version: String::from_str(CURRENT_SCHEMA_VERSION),
        destinations,
        globals: TraceConfigGlobal {
            protocol: String::from_str("tcp"),
            max_hops: DEFAULT_MAX_HOPS,
            number_queries: DEFAULT_NUM_QUERIES,
            parallel_requests: DEFAULT_PARALLEL_REQUESTS,
            timeout: Duration::from_secs(DEFAULT_TIMEOUT_SECS),
            source_port: DEFAULT_SOURCE_PORT,
            interval: Duration::from_secs(DEFAULT_INTERVAL_SECS),
        },
        opentelemetry: TraceConfigOtel {
            destination: String::from_str("127.0.0.1"),
            tls: false,
            port: 4317,
            grpc: true,
            linked_spans: false,
        },
        healthcheck: TraceConfigHealthCheck {
            path: String::from_str("/_healthcheck"),
            enabled: true,
            port: 8080,
        },
    }
}

} // verus!
