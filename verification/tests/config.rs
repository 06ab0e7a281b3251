use telemetry_bridge::config::{default_metrics_port, Config};
use telemetry_bridge::errors::PluginError;

fn complete() -> Config {
    Config {
        prometheus_endpoint: "http://localhost:9090".to_string(),
        loki_endpoint: "http://localhost:3100/loki/api/v1/push".to_string(),
        bot_token: "not-a-real-token".to_string(),
        server_address: "mc.example.org:25565".to_string(),
        metrics_port: default_metrics_port(),
    }
}

fn complaint(config: &Config) -> String {
    match config.validate() {
        Err(PluginError::Config(message)) => message,
        other => panic!("expected a configuration error, got {:?}", other),
    }
}

#[test]
fn default_port_is_3030() {
    assert_eq!(default_metrics_port(), 3030);
}

#[test]
fn complete_configuration_is_accepted() {
    assert!(complete().validate().is_ok());
}

#[test]
fn port_is_not_validated() {
    let mut config = complete();
    config.metrics_port = 0;
    assert!(config.validate().is_ok());
    config.metrics_port = u16::MAX;
    assert!(config.validate().is_ok());
}

#[test]
fn empty_prometheus_endpoint_is_rejected() {
    let mut config = complete();
    config.prometheus_endpoint = String::new();
    assert_eq!(complaint(&config), "Prometheus endpoint cannot be empty");
}

#[test]
fn empty_loki_endpoint_is_rejected() {
    let mut config = complete();
    config.loki_endpoint = String::new();
    assert_eq!(complaint(&config), "Loki endpoint cannot be empty");
}

#[test]
fn empty_bot_token_is_rejected() {
    let mut config = complete();
    config.bot_token = String::new();
    assert_eq!(complaint(&config), "Bot token cannot be empty");
}

#[test]
fn empty_server_address_is_rejected() {
    let mut config = complete();
    config.server_address = String::new();
    assert_eq!(complaint(&config), "Server address cannot be empty");
}

#[test]
fn first_empty_field_is_the_one_named() {
    let mut config = complete();
    config.server_address = String::new();
    config.bot_token = String::new();
    assert_eq!(complaint(&config), "Bot token cannot be empty");
    config.loki_endpoint = String::new();
    assert_eq!(complaint(&config), "Loki endpoint cannot be empty");
    config.prometheus_endpoint = String::new();
    assert_eq!(complaint(&config), "Prometheus endpoint cannot be empty");
}

#[test]
fn blank_field_counts_as_a_value() {
    let mut config = complete();
    config.bot_token = " ".to_string();
    assert!(config.validate().is_ok());
}

#[test]
fn unreadable_file_is_a_configuration_error() {
    match Config::unreadable("No such file or directory (os error 2)") {
        PluginError::Config(message) => assert_eq!(
            message,
            "Failed to read config file: No such file or directory (os error 2)"
        ),
        other => panic!("expected a configuration error, got {:?}", other),
    }
}

#[test]
fn malformed_file_is_a_configuration_error() {
    match Config::malformed("missing field `bot_token`") {
        PluginError::Config(message) => {
            assert_eq!(message, "Failed to parse config: missing field `bot_token`")
        }
        other => panic!("expected a configuration error, got {:?}", other),
    }
}
