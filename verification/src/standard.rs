//! The standard single-variable loading path: only the log format is read
//! from the environment; every other knob keeps its neutral value — filtering
//! enabled with no expression configured and no override default.

use crate::config::Config;
use crate::config::ConfigView;
use crate::config::spec_build_plan;
use crate::drain::ReadySink;
use crate::env::log_format_from_env_with_default;
use crate::error::LogFormatFromEnvWithDefaultError;
use crate::log_format::LogFormat;
use crate::log_format::spec_parse_log_format;
use crate::parse_from_env::EnvValue;
use vstd::prelude::*;

verus! {

/// Canonical name of the env var this loading path reads.
pub const STANDARD_LOG_FORMAT_ENV_KEY: &'static str = "LOG_FORMAT";

/// The configuration the standard path produces for a resolved format:
/// every field but the format at its neutral value.
pub open spec fn spec_standard_config(format: LogFormat) -> ConfigView {
    ConfigView {
        format,
        disable_env_logger: false,
        env_logger_filters: None,
        env_logger_override_default_filter: None,
    }
}

/// Build a [`Config`] from the observed state of the `LOG_FORMAT` env var,
/// defaulting to `Terminal` when the variable is absent.
pub fn config_from_env(raw: EnvValue) -> (r: Result<Config, LogFormatFromEnvWithDefaultError>)
    ensures
        raw is Absent ==> (r matches Ok(c) && c@ == spec_standard_config(LogFormat::Terminal)),
        raw matches EnvValue::NotUnicode(b) ==> r == Err::<Config, _>(
            LogFormatFromEnvWithDefaultError::NotUnicode(b),
        ),
        raw matches EnvValue::Present(s) ==> match spec_parse_log_format(s@) {
            Some(f) => r matches Ok(c) && c@ == spec_standard_config(f),
            None => r == Err::<Config, _>(LogFormatFromEnvWithDefaultError::InvalidFormat(s)),
        },
{
    let format = match log_format_from_env_with_default(raw, LogFormat::Terminal) {
        Ok(f) => f,
        Err(e) => {
            return Err(e);
        },
    };
    Ok(
        Config {
            format,
            disable_env_logger: false,
            env_logger_filters: None,
            env_logger_override_default_filter: None,
        },
    )
}

/// Build a ready-to-use sink from the observed state of the `LOG_FORMAT` env
/// var: the format encoder it names (or the `Terminal` default), wrapped in
/// the verbosity filter with the engine's built-in default behavior, wrapped
/// in asynchronous buffering, ready for `slog::Logger::root`.
pub fn drain_from_env(raw: EnvValue) -> (r: Result<ReadySink, LogFormatFromEnvWithDefaultError>)
    ensures
        raw is Absent ==> (r matches Ok(s) && s@ == spec_build_plan(
            spec_standard_config(LogFormat::Terminal),
        )),
        raw matches EnvValue::NotUnicode(b) ==> r == Err::<ReadySink, _>(
            LogFormatFromEnvWithDefaultError::NotUnicode(b),
        ),
        raw matches EnvValue::Present(s) ==> match spec_parse_log_format(s@) {
            Some(f) => r matches Ok(sk) && sk@ == spec_build_plan(spec_standard_config(f)),
            None => r == Err::<ReadySink, _>(LogFormatFromEnvWithDefaultError::InvalidFormat(s)),
        },
{
    match config_from_env(raw) {
        Ok(cfg) => Ok(cfg.build()),
        Err(e) => Err(e),
    }
}

} // verus!
