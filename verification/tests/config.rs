use signalstashrs::config::{ConfigError, LogLevel, Settings};
use signalstashrs::consts::env::{DEFAULT_SENSOR_DATUM_PREFIX, ENV_SENSOR_DATUM_PREFIX};

#[test]
fn settings_from_env_vars_defaults() {
    let vars = Vec::new();
    let settings = Settings::from_env_vars(&vars).unwrap();
    assert_eq!(settings.bind_address, "0.0.0.0:20120");
    assert_eq!(settings.log_level, LogLevel::Info);
    assert_eq!(settings.redis_url, "redis://localhost:6379");
    assert_eq!(settings.sensor_datum_prefix, DEFAULT_SENSOR_DATUM_PREFIX);
}

#[test]
fn settings_from_env_vars_custom() {
    let mut vars = Vec::new();
    vars.push(("LOG_LEVEL".to_string(), "DEBUG".to_string()));
    vars.push(("BIND_ADDRESS".to_string(), "127.0.0.1:12345".to_string()));
    vars.push(("REDIS_URL".to_string(), "redis://custom:1234".to_string()));
    let settings = Settings::from_env_vars(&vars).unwrap();
    assert_eq!(settings.bind_address, "127.0.0.1:12345");
    assert_eq!(settings.log_level, LogLevel::Debug);
    assert_eq!(settings.redis_url, "redis://custom:1234");
    assert_eq!(settings.sensor_datum_prefix, DEFAULT_SENSOR_DATUM_PREFIX);
}

#[test]
fn settings_from_env_vars_invalid_log_level() {
    let mut vars = Vec::new();
    vars.push(("LOG_LEVEL".to_string(), "INVALID".to_string()));
    let result = Settings::from_env_vars(&vars);
    assert!(result.is_err());
}

#[test]
fn test_sensor_datum_prefix_custom() {
    let mut vars = Vec::new();
    vars.push((ENV_SENSOR_DATUM_PREFIX.to_string(), "customprefix".to_string()));
    let settings = Settings::from_env_vars(&vars).unwrap();
    assert_eq!(settings.sensor_datum_prefix, "customprefix");
}

#[test]
fn invalid_log_level_reports_the_value() {
    let vars = vec![("LOG_LEVEL".to_string(), "LOUD".to_string())];
    match Settings::from_env_vars(&vars) {
        Err(ConfigError::InvalidLogLevel { value }) => assert_eq!(value, "LOUD"),
        Ok(_) => panic!("a text that names no level gave settings"),
    }
}

#[test]
fn every_level_name_is_read() {
    let cases = [
        ("trace", LogLevel::Trace),
        ("debug", LogLevel::Debug),
        ("info", LogLevel::Info),
        ("warn", LogLevel::Warn),
        ("error", LogLevel::Error),
        ("1", LogLevel::Error),
        ("5", LogLevel::Trace),
    ];
    for (text, level) in cases {
        let vars = vec![("LOG_LEVEL".to_string(), text.to_string())];
        assert_eq!(Settings::from_env_vars(&vars).unwrap().log_level, level);
    }
}

#[test]
fn last_occurrence_of_a_variable_counts() {
    let vars = vec![
        ("REDIS_URL".to_string(), "redis://first:1".to_string()),
        ("BIND_ADDRESS".to_string(), "10.0.0.1:80".to_string()),
        ("REDIS_URL".to_string(), "redis://second:2".to_string()),
    ];
    let settings = Settings::from_env_vars(&vars).unwrap();
    assert_eq!(settings.redis_url, "redis://second:2");
    assert_eq!(settings.bind_address, "10.0.0.1:80");
}
