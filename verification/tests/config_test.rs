//! Configuration schema and validation unit tests. Each configuration is
//! written as the value that loading its YAML document produces.

use traceroute::config::{
    check_loaded_config, default_interval, default_max_hops, default_number_queries,
    default_parallel_requests, default_protocol, default_source_port, default_timeout,
    sample_config, ConfigError,
    TraceConfig, TraceConfigGlobal, TraceConfigHealthCheck, TraceConfigOtel, DEFAULT_INTERVAL_SECS,
    DEFAULT_MAX_HOPS, DEFAULT_NUM_QUERIES, DEFAULT_PARALLEL_REQUESTS, DEFAULT_SOURCE_PORT,
    DEFAULT_TIMEOUT_SECS,
};
use traceroute::duration::Duration;

/// The configuration of this document:
///
/// ```yaml
/// schema-version: 1.0.0
/// destinations:
///   - example.com
/// globals:
///   protocol: tcp
///   max-hops: 30
///   number-queries: 3
///   parallel-requests: 16
///   timeout: 5s
///   source-port: 80
///   interval: 60s
/// opentelemetry:
///   destination: "localhost"
///   tls: false
///   port: 4317
///   grpc: true
/// healthcheck:
///   path: "/_healthcheck"
///   enabled: true
///   port: 8080
/// ```
fn valid_config() -> TraceConfig {
    TraceConfig {
        schema_version: "1.0.0".to_string(),
        destinations: vec!["example.com".to_string()],
        globals: TraceConfigGlobal {
            protocol: "tcp".to_string(),
            max_hops: 30,
            number_queries: 3,
            parallel_requests: 16,
            timeout: Duration::from_secs(5),
            source_port: 80,
            interval: Duration::from_secs(60),
        },
        opentelemetry: TraceConfigOtel {
            destination: "localhost".to_string(),
            tls: false,
            port: 4317,
            grpc: true,
            linked_spans: false,
        },
        healthcheck: TraceConfigHealthCheck {
            path: "/_healthcheck".to_string(),
            enabled: true,
            port: 8080,
        },
    }
}

#[test]
fn test_load_valid_config() {
    let cfg = check_loaded_config(valid_config()).expect("valid configuration");
    assert_eq!(cfg.schema_version, "1.0.0");
    assert_eq!(cfg.destinations, vec!["example.com"]);
    assert_eq!(cfg.globals.protocol, "tcp");
    assert_eq!(cfg.globals.max_hops, 30);
    assert_eq!(cfg.globals.number_queries, 3);
    assert_eq!(cfg.globals.parallel_requests, 16);
    assert_eq!(cfg.globals.timeout, Duration::from_secs(5));
    assert_eq!(cfg.globals.source_port, 80);
    assert_eq!(cfg.globals.interval, Duration::from_secs(60));
    assert_eq!(cfg.opentelemetry.destination, "localhost");
    assert!(!cfg.opentelemetry.tls);
    assert_eq!(cfg.opentelemetry.port, 4317);
    assert!(cfg.opentelemetry.grpc);
    assert_eq!(cfg.healthcheck.path, "/_healthcheck");
    assert!(cfg.healthcheck.enabled);
    assert_eq!(cfg.healthcheck.port, 8080);
}

#[test]
fn test_reject_invalid_schema_version() {
    let mut invalid = valid_config();
    invalid.schema_version = "2.0.0".to_string();
    let err = check_loaded_config(invalid);
    assert!(err.is_err());
    match err {
        Err(ConfigError::UnsupportedSchema(version)) => {
            assert_eq!(version, "2.0.0");
        }
        other => panic!("expected UnsupportedSchema error, got {:?}", other),
    }
}

#[test]
fn test_default_values_applied() {
    // The globals of a document that only names the protocol.
    let globals = TraceConfigGlobal {
        protocol: "udp".to_string(),
        max_hops: default_max_hops(),
        number_queries: default_number_queries(),
        parallel_requests: default_parallel_requests(),
        timeout: default_timeout(),
        source_port: default_source_port(),
        interval: default_interval(),
    };
    let cfg = check_loaded_config(TraceConfig {
        schema_version: "1.0.0".to_string(),
        destinations: vec!["fallback.org".to_string()],
        globals,
        opentelemetry: TraceConfigOtel {
            destination: "127.0.0.1".to_string(),
            tls: true,
            port: 4318,
            grpc: false,
            linked_spans: false,
        },
        healthcheck: TraceConfigHealthCheck {
            path: "/health".to_string(),
            enabled: false,
            port: 9090,
        },
    })
    .expect("configuration with defaults");
    assert_eq!(cfg.globals.max_hops, DEFAULT_MAX_HOPS);
    assert_eq!(cfg.globals.number_queries, DEFAULT_NUM_QUERIES);
    assert_eq!(cfg.globals.parallel_requests, DEFAULT_PARALLEL_REQUESTS);
    assert_eq!(cfg.globals.timeout, Duration::from_secs(DEFAULT_TIMEOUT_SECS));
    assert_eq!(cfg.globals.source_port, DEFAULT_SOURCE_PORT);
    assert_eq!(cfg.globals.interval, Duration::from_secs(DEFAULT_INTERVAL_SECS));
}

#[test]
fn test_generate_sample_config_roundtrip() {
    let sample = sample_config();
    assert_eq!(sample.schema_version, "1.0.0");
    let parsed = check_loaded_config(sample).expect("sample config is accepted");
    assert_eq!(parsed.schema_version, "1.0.0");
    assert_eq!(
        parsed.destinations,
        vec!["first-test-domain.org", "second-test-domain.org"]
    );
    assert_eq!(parsed.globals.protocol, "tcp");
}

#[test]
fn test_reject_empty_destinations() {
    let mut invalid = valid_config();
    invalid.destinations = Vec::new();
    let err = check_loaded_config(invalid);
    assert!(err.is_err());
    match err {
        Err(ConfigError::Validation(msg)) => {
            assert!(msg.contains("destinations list must not be empty"));
        }
        other => panic!("expected Validation error, got {:?}", other),
    }
}

#[test]
fn test_reject_invalid_protocol() {
    let mut invalid = valid_config();
    invalid.globals.protocol = "quic".to_string();
    let err = check_loaded_config(invalid);
    assert!(err.is_err());
    match err {
        Err(ConfigError::Validation(msg)) => {
            assert!(msg.contains("unsupported protocol 'quic'"));
        }
        other => panic!("expected Validation error, got {:?}", other),
    }
}

#[test]
fn test_reject_zero_source_port() {
    let mut invalid = valid_config();
    invalid.globals.source_port = 0;
    let err = check_loaded_config(invalid);
    assert!(err.is_err());
    match err {
        Err(ConfigError::Validation(msg)) => {
            assert!(msg.contains("globals.source-port must be between 1 and 65535"));
        }
        other => panic!("expected Validation error, got {:?}", other),
    }
}

#[test]
fn test_reject_zero_healthcheck_port() {
    let mut invalid = valid_config();
    invalid.healthcheck.port = 0;
    let err = check_loaded_config(invalid);
    assert!(err.is_err());
    match err {
        Err(ConfigError::Validation(msg)) => {
            assert!(msg.contains("healthcheck.port must be between 1 and 65535"));
        }
        other => panic!("expected Validation error, got {:?}", other),
    }
}

#[test]
fn validation_messages_are_exact() {
    let mut cfg = valid_config();
    cfg.globals.protocol = "quic".to_string();
    assert_eq!(
        cfg.validate(),
        Err(ConfigError::Validation(
            "unsupported protocol 'quic'; must be 'udp' or 'tcp'".to_string()
        ))
    );
    let mut cfg = valid_config();
    cfg.globals.timeout = Duration::from_secs(0);
    assert_eq!(
        cfg.validate(),
        Err(ConfigError::Validation(
            "globals.timeout must be greater than zero".to_string()
        ))
    );
    let mut cfg = valid_config();
    cfg.globals.interval = Duration::from_millis(0);
    assert_eq!(
        cfg.validate(),
        Err(ConfigError::Validation(
            "globals.interval must be greater than zero".to_string()
        ))
    );
    let mut cfg = valid_config();
    cfg.globals.timeout = Duration::from_millis(1);
    assert_eq!(cfg.validate(), Ok(()));
    let mut cfg = valid_config();
    cfg.globals.protocol = "udp".to_string();
    assert_eq!(cfg.validate(), Ok(()));
}

#[test]
fn the_first_broken_constraint_is_reported() {
    let mut cfg = valid_config();
    cfg.destinations = Vec::new();
    cfg.globals.protocol = "quic".to_string();
    cfg.healthcheck.port = 0;
    assert_eq!(
        cfg.validate(),
        Err(ConfigError::Validation(
            "destinations list must not be empty".to_string()
        ))
    );
    // The schema version is checked before anything else.
    cfg.schema_version = "99.0.0".to_string();
    assert_eq!(
        check_loaded_config(cfg),
        Err(ConfigError::UnsupportedSchema("99.0.0".to_string()))
    );
}

#[test]
fn sample_config_matches_the_documented_template() {
    let sample = sample_config();
    assert_eq!(sample.globals.max_hops, 60);
    assert_eq!(sample.globals.number_queries, 3);
    assert_eq!(sample.globals.parallel_requests, 16);
    assert_eq!(sample.globals.timeout, Duration::from_secs(5));
    assert_eq!(sample.globals.source_port, 80);
    assert_eq!(sample.globals.interval, Duration::from_secs(60));
    assert_eq!(sample.opentelemetry.destination, "127.0.0.1");
    assert!(!sample.opentelemetry.tls);
    assert_eq!(sample.opentelemetry.port, 4317);
    assert!(sample.opentelemetry.grpc);
    assert!(!sample.opentelemetry.linked_spans);
    assert_eq!(sample.healthcheck.path, "/_healthcheck");
    assert!(sample.healthcheck.enabled);
    assert_eq!(sample.healthcheck.port, 8080);
    assert_eq!(sample.validate(), Ok(()));
    assert_eq!(TraceConfigGlobal::default(), sample.globals);
}

#[test]
fn documented_defaults_of_every_section() {
    assert_eq!(default_protocol(), "tcp");
    let otel = TraceConfigOtel::default();
    assert_eq!(otel.destination, "127.0.0.1");
    assert!(!otel.tls);
    assert_eq!(otel.port, 4317);
    assert!(otel.grpc);
    assert!(!otel.linked_spans);
    let health = TraceConfigHealthCheck::default();
    assert_eq!(health.path, "/_healthcheck");
    assert!(health.enabled);
    assert_eq!(health.port, 8080);
    assert_eq!(TraceConfigGlobal::default().protocol, "tcp");
}
