use slog_env_cfg::Config;
use slog_env_cfg::EnvValue;
use slog_env_cfg::LogFormat;
use slog_env_cfg::LogFormatFromEnvWithDefaultError;
use slog_env_cfg::standard::STANDARD_LOG_FORMAT_ENV_KEY;
use slog_env_cfg::standard::config_from_env;
use slog_env_cfg::standard::drain_from_env;

fn standard_config(format: LogFormat) -> Config {
    Config {
        format,
        disable_env_logger: false,
        env_logger_filters: None,
        env_logger_override_default_filter: None,
    }
}

#[test]
fn standard_log_format_term() {
    let raw = EnvValue::Present("term".to_string());
    assert_eq!(config_from_env(raw).unwrap(), standard_config(LogFormat::Terminal));
}

#[test]
fn standard_log_format_json() {
    let raw = EnvValue::Present("json".to_string());
    assert_eq!(config_from_env(raw).unwrap(), standard_config(LogFormat::Json));
}

#[test]
fn standard_log_format_unset() {
    let raw = EnvValue::Absent;
    assert_eq!(config_from_env(raw).unwrap(), standard_config(LogFormat::Terminal));
}

#[test]
fn standard_log_format_empty() {
    let raw = EnvValue::Present("".to_string());
    assert!(matches!(
        config_from_env(raw),
        Err(LogFormatFromEnvWithDefaultError::InvalidFormat(ref s)) if s == ""
    ));
}

#[test]
fn standard_log_format_invalid() {
    let raw = EnvValue::Present("invalid".to_string());
    assert!(matches!(
        config_from_env(raw),
        Err(LogFormatFromEnvWithDefaultError::InvalidFormat(ref s)) if s == "invalid"
    ));
}

#[test]
fn standard_env_key_name() {
    assert_eq!(STANDARD_LOG_FORMAT_ENV_KEY, "LOG_FORMAT");
}

#[test]
fn standard_drain_builds() {
    let sink = drain_from_env(EnvValue::Present("json".to_string())).unwrap();
    drop(sink);
    assert!(drain_from_env(EnvValue::Present("bogus".to_string())).is_err());
}
