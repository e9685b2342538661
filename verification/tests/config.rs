use axum_backend::dbs::connector::connection_timeout_secs;
use axum_backend::dbs::error::DatabaseError;
use axum_backend::dbs::health::health_check_timeout_secs;
use axum_backend::dbs::models::DbConfig;
use axum_backend::sys::config::server::ServerConfig;
use axum_backend::sys::env::Environment;
use axum_backend::sys::log::{LogConfig, LogFormat, LogLayout, FALLBACK_FILTER};

fn env_of(pairs: &[(&str, &str)]) -> Environment {
    let mut env = Environment::new();
    for (key, value) in pairs {
        env.push(key, value);
    }
    env
}

#[test]
fn server_config_defaults() {
    let config = ServerConfig::from_env(&Environment::new());
    assert_eq!(config.host, "0.0.0.0");
    assert_eq!(config.port, 3000);
    assert_eq!(config.address(), "0.0.0.0:3000");
}

#[test]
fn server_config_from_the_environment() {
    let env = env_of(&[("SERVER_HOST", "127.0.0.1"), ("SERVER_PORT", "8080")]);
    let config = ServerConfig::from_env(&env);
    assert_eq!(config.host, "127.0.0.1");
    assert_eq!(config.port, 8080);
    assert_eq!(config.address(), "127.0.0.1:8080");
}

#[test]
fn server_port_that_does_not_parse_gives_the_default() {
    for bad in ["http", "65536", "-1", "", "80 "] {
        let env = env_of(&[("SERVER_PORT", bad)]);
        assert_eq!(ServerConfig::from_env(&env).port, 3000, "{:?}", bad);
    }
}

#[test]
fn server_address_of_edge_ports() {
    let low = ServerConfig { host: "localhost".to_string(), port: 0 };
    assert_eq!(low.address(), "localhost:0");
    let high = ServerConfig { host: "::1".to_string(), port: 65535 };
    assert_eq!(high.address(), "::1:65535");
    let no_host = ServerConfig { host: String::new(), port: 80 };
    assert_eq!(no_host.address(), ":80");
}

#[test]
fn log_format_by_name() {
    assert_eq!(LogFormat::from_name("json", true), LogFormat::Json);
    assert_eq!(LogFormat::from_name("json", false), LogFormat::Json);
    assert_eq!(LogFormat::from_name("compact", true), LogFormat::Compact);
    assert_eq!(LogFormat::from_name("compact", false), LogFormat::Compact);
    assert_eq!(LogFormat::from_name("auto", true), LogFormat::Compact);
    assert_eq!(LogFormat::from_name("auto", false), LogFormat::Json);
    assert_eq!(LogFormat::from_name("", true), LogFormat::Compact);
    assert_eq!(LogFormat::from_name("JSON", true), LogFormat::Compact);
    assert_eq!(LogFormat::from_name("pretty", false), LogFormat::Json);
}

#[test]
fn log_format_from_the_environment_ignores_case() {
    let json = env_of(&[("LOG_FORMAT", "JSON")]);
    assert_eq!(LogFormat::from_env(&json, true), LogFormat::Json);
    let compact = env_of(&[("LOG_FORMAT", "Compact")]);
    assert_eq!(LogFormat::from_env(&compact, false), LogFormat::Compact);
    let other = env_of(&[("LOG_FORMAT", "pretty")]);
    assert_eq!(LogFormat::from_env(&other, true), LogFormat::Compact);
    assert_eq!(LogFormat::from_env(&other, false), LogFormat::Json);
}

#[test]
fn log_format_defaults_by_build() {
    let env = Environment::new();
    assert_eq!(LogFormat::from_env(&env, true), LogFormat::Compact);
    assert_eq!(LogFormat::from_env(&env, false), LogFormat::Json);
}

#[test]
fn log_config_defaults_by_build() {
    let env = Environment::new();
    let debug = LogConfig::from_env(&env, true);
    assert_eq!(debug.format, LogFormat::Compact);
    assert_eq!(debug.filter, "axum_backend=debug,tower_http=debug,info");
    let release = LogConfig::from_env(&env, false);
    assert_eq!(release.format, LogFormat::Json);
    assert_eq!(release.filter, "axum_backend=info,tower_http=info,warn");
}

#[test]
fn log_config_from_the_environment() {
    let env = env_of(&[("RUST_LOG", "trace"), ("LOG_FORMAT", "json")]);
    let config = LogConfig::from_env(&env, true);
    assert_eq!(config.format, LogFormat::Json);
    assert_eq!(config.filter, "trace");
}

#[test]
fn db_config_with_every_variable_set() {
    let env = env_of(&[
        ("DB_ENDPOINT", "ws://localhost:8000"),
        ("DB_NAMESPACE", "ns"),
        ("DB_NAME", "main"),
        ("DB_USERNAME", "root"),
        ("DB_PASSWORD", "SECRET-REDACTED"),
    ]);
    match DbConfig::from_env(&env) {
        Ok(config) => {
            assert_eq!(config.endpoint, "ws://localhost:8000");
            assert_eq!(config.namespace, "ns");
            assert_eq!(config.database, "main");
            assert_eq!(config.username, "root");
            assert_eq!(config.password, "SECRET-REDACTED");
        },
        Err(e) => panic!("unexpected error: {:?}", e),
    }
}

#[test]
fn db_config_names_the_first_missing_variable() {
    let all = [
        ("DB_ENDPOINT", "ws://localhost:8000"),
        ("DB_NAMESPACE", "ns"),
        ("DB_NAME", "main"),
        ("DB_USERNAME", "root"),
        ("DB_PASSWORD", "SECRET-REDACTED"),
    ];
    for missing in 0..all.len() {
        let mut env = Environment::new();
        for (i, (key, value)) in all.iter().enumerate() {
            if i != missing {
                env.push(key, value);
            }
        }
        let expected = format!("Environment variable '{}' is not set", all[missing].0);
        match DbConfig::from_env(&env) {
            Err(DatabaseError::ConfigError(text)) => assert_eq!(text, expected),
            other => panic!("unexpected result: {:?}", other),
        }
    }
    let mut only_last_missing = Environment::new();
    for (key, value) in &all[..4] {
        only_last_missing.push(key, value);
    }
    match DbConfig::from_env(&only_last_missing) {
        Err(DatabaseError::ConfigError(text)) => {
            assert_eq!(text, "Environment variable 'DB_PASSWORD' is not set")
        },
        other => panic!("unexpected result: {:?}", other),
    }
}

#[test]
fn timeouts_default_and_configured() {
    let empty = Environment::new();
    assert_eq!(health_check_timeout_secs(&empty), 5);
    assert_eq!(connection_timeout_secs(&empty), 10);
    let env = env_of(&[("DB_HEALTH_CHECK_TIMEOUT", "2"), ("DB_CONNECTION_TIMEOUT", "30")]);
    assert_eq!(health_check_timeout_secs(&env), 2);
    assert_eq!(connection_timeout_secs(&env), 30);
    let bad = env_of(&[("DB_HEALTH_CHECK_TIMEOUT", "soon"), ("DB_CONNECTION_TIMEOUT", "-3")]);
    assert_eq!(health_check_timeout_secs(&bad), 5);
    assert_eq!(connection_timeout_secs(&bad), 10);
}

#[test]
fn layout_of_each_format() {
    let json = LogFormat::Json.layout();
    assert_eq!(
        json,
        LogLayout {
            target: true,
            line_number: false,
            file: false,
            thread_ids: false,
            level: true,
            current_span: true,
        }
    );
    let compact = LogFormat::Compact.layout();
    assert_eq!(
        compact,
        LogLayout {
            target: true,
            line_number: true,
            file: true,
            thread_ids: false,
            level: true,
            current_span: false,
        }
    );
    assert_eq!(FALLBACK_FILTER, "info");
}

#[test]
fn configurations_clone_field_by_field() {
    let server = ServerConfig { host: "example.org".to_string(), port: 443 };
    let copy = server.clone();
    assert_eq!(copy.host, "example.org");
    assert_eq!(copy.port, 443);
    assert_eq!(copy.address(), server.address());

    let db = DbConfig {
        endpoint: "ws://db:8000".to_string(),
        namespace: "ns".to_string(),
        database: "main".to_string(),
        username: "root".to_string(),
        password: "SECRET-REDACTED".to_string(),
    };
    let copy = db.clone();
    assert_eq!(copy.endpoint, db.endpoint);
    assert_eq!(copy.namespace, db.namespace);
    assert_eq!(copy.database, db.database);
    assert_eq!(copy.username, db.username);
    assert_eq!(copy.password, db.password);
}
