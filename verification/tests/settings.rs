use rscms::config::{parse_u16, ConfigError, ServerConfig};
use rscms::handler::health_message;

fn s(v: &str) -> Option<String> {
    Some(v.to_string())
}

#[test]
fn defaults() {
    let c = ServerConfig::from_env(None, None, s("mongodb://localhost"), s("rscms"), None).ok().unwrap();
    assert_eq!(c.host, "127.0.0.1");
    assert_eq!(c.port, 8080);
    assert_eq!(c.mongo_uri, "mongodb://localhost");
    assert_eq!(c.db_name, "rscms");
    assert_eq!(c.jwt_secret, "secret");
}

#[test]
fn given_values() {
    let c = ServerConfig::from_env(s("0.0.0.0"), s("+8888"), s("u"), s("d"), s("k")).ok().unwrap();
    assert_eq!(c.host, "0.0.0.0");
    assert_eq!(c.port, 8888);
    assert_eq!(c.jwt_secret, "k");
    let c = ServerConfig::from_env(None, s("65535"), s("u"), s("d"), None).ok().unwrap();
    assert_eq!(c.port, 65535);
}

#[test]
fn invalid_ports() {
    for p in ["", "abc", "65536", " 80", "80 ", "-1", "+", "8o8o"] {
        assert_eq!(
            ServerConfig::from_env(None, s(p), s("u"), s("d"), None).err(),
            Some(ConfigError::InvalidPort),
            "port {:?}",
            p
        );
    }
}

#[test]
fn missing_settings_in_order() {
    assert_eq!(
        ServerConfig::from_env(None, s("x"), None, None, None).err(),
        Some(ConfigError::InvalidPort)
    );
    assert_eq!(
        ServerConfig::from_env(None, None, None, None, None).err(),
        Some(ConfigError::MissingMongoUri)
    );
    assert_eq!(
        ServerConfig::from_env(None, None, s("u"), None, None).err(),
        Some(ConfigError::MissingDatabaseName)
    );
}

#[test]
fn config_error_messages() {
    assert_eq!(ConfigError::InvalidPort.message(), "Invalid port number");
    assert_eq!(ConfigError::MissingMongoUri.message(), "MongoDB URL not set!");
    assert_eq!(ConfigError::MissingDatabaseName.message(), "MongoDB database name not set!");
}

#[test]
fn health_text() {
    assert_eq!(
        health_message("2024-01-02 03:04:05"),
        "healthy! Server current time is: 2024-01-02 03:04:05"
    );
}

#[test]
fn port_numerals() {
    assert_eq!(parse_u16("0"), Some(0));
    assert_eq!(parse_u16("08080"), Some(8080));
    assert_eq!(parse_u16("+1"), Some(1));
    assert_eq!(parse_u16("65535"), Some(65535));
    assert_eq!(parse_u16("65536"), None);
    assert_eq!(parse_u16("99999999999999999999"), None);
    assert_eq!(parse_u16("1x"), None);
    assert_eq!(parse_u16("++1"), None);
    assert_eq!(parse_u16("٣"), None);
    for s in ["0", "1", "+7", "65535", "65536", "", "+", "-0", " 1", "12a", "4294967296"] {
        assert_eq!(parse_u16(s), s.parse::<u16>().ok(), "{:?}", s);
    }
}
