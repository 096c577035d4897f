use slog::Drain;
use slog::Level;
use slog_env_cfg::Config;
use slog_env_cfg::ConfigFromEnvError;
use slog_env_cfg::EnvSnapshot;
use slog_env_cfg::EnvValue;
use slog_env_cfg::LogFormat;
use slog_env_cfg::DISABLE_ENV_LOGGER_ENV_KEY;
use slog_env_cfg::ENV_LOGGER_FILTERS_ENV_KEY;
use slog_env_cfg::ENV_LOGGER_OVERRIDE_DEFAULT_FILTER_DEFAULT;
use slog_env_cfg::LOG_FORMAT_ENV_KEY;
use slog_env_cfg::drain_from_env;
use slog_env_cfg::filter_sink;
use slog_env_cfg::filter_sink_default;
use slog_env_cfg::json_sink;
use slog_env_cfg::terminal_sink;
use slog_env_cfg::util::drain_async_fuse;

#[test]
fn build_test_terminal() {
    let cfg = Config {
        format: LogFormat::Terminal,
        disable_env_logger: false,
        env_logger_filters: None,
        env_logger_override_default_filter: None,
    };
    cfg.build();
}

#[test]
fn build_test_json() {
    let cfg = Config {
        format: LogFormat::Json,
        disable_env_logger: false,
        env_logger_filters: None,
        env_logger_override_default_filter: None,
    };
    cfg.build();
}

#[test]
fn build_with_disabled_filter_behaves_like_raw_encoder() {
    let cfg = Config {
        format: LogFormat::Json,
        disable_env_logger: true,
        env_logger_filters: Some("error".to_string()),
        env_logger_override_default_filter: Some("error".to_string()),
    };
    let filterless = cfg.build();
    let raw = drain_async_fuse(json_sink());
    for level in [
        Level::Critical,
        Level::Error,
        Level::Warning,
        Level::Info,
        Level::Debug,
        Level::Trace,
    ] {
        assert_eq!(
            filterless.raw.drain.is_enabled(level),
            raw.raw.drain.is_enabled(level)
        );
    }
}

#[test]
fn build_twice_from_equal_configs() {
    let cfg = Config {
        format: LogFormat::Terminal,
        disable_env_logger: false,
        env_logger_filters: Some("debug".to_string()),
        env_logger_override_default_filter: None,
    };
    let first = cfg.clone().build();
    let second = cfg.build();
    for level in [Level::Error, Level::Info, Level::Trace] {
        assert_eq!(
            first.raw.drain.is_enabled(level),
            second.raw.drain.is_enabled(level)
        );
    }
}

#[test]
fn build_every_branch() {
    for format in [LogFormat::Terminal, LogFormat::Json] {
        for disable in [false, true] {
            for filters in [None, Some(""), Some("debug")] {
                for fallback in [None, Some("warn")] {
                    let cfg = Config {
                        format,
                        disable_env_logger: disable,
                        env_logger_filters: filters.map(|s: &str| s.to_string()),
                        env_logger_override_default_filter: fallback
                            .map(|s: &str| s.to_string()),
                    };
                    cfg.build();
                }
            }
        }
    }
}

#[test]
fn drain_from_env_defaults() {
    let env = EnvSnapshot {
        log_format: EnvValue::Absent,
        disable_env_logger: EnvValue::Absent,
        env_logger_filters: EnvValue::Absent,
    };
    let sink = drain_from_env(env).unwrap();
    assert!(sink.raw.drain.is_enabled(Level::Critical));
}

#[test]
fn drain_from_env_fails_like_the_loader() {
    let env = EnvSnapshot {
        log_format: EnvValue::Present("bogus".to_string()),
        disable_env_logger: EnvValue::Absent,
        env_logger_filters: EnvValue::Absent,
    };
    assert!(matches!(
        drain_from_env(env),
        Err(ConfigFromEnvError::InvalidLogFormat(_))
    ));
}

#[test]
fn manual_stage_composition() {
    let sink = terminal_sink();
    let ready = drain_async_fuse(sink);
    assert!(ready.raw.drain.is_enabled(Level::Error));
}

#[test]
fn manual_filter_stages() {
    let filtered = filter_sink(json_sink(), "info");
    drain_async_fuse(filtered);
    let default_filtered = filter_sink_default(terminal_sink());
    drain_async_fuse(default_filtered);
}

#[test]
fn env_key_names() {
    assert_eq!(LOG_FORMAT_ENV_KEY, "LOG_FORMAT");
    assert_eq!(DISABLE_ENV_LOGGER_ENV_KEY, "DISABLE_ENV_LOGGER");
    assert_eq!(ENV_LOGGER_FILTERS_ENV_KEY, "RUST_LOG");
    assert_eq!(ENV_LOGGER_OVERRIDE_DEFAULT_FILTER_DEFAULT, "debug");
}
