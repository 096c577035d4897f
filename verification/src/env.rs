//! Loading a `LogFormat` from the observed state of one environment variable.

use crate::error::LogFormatFromEnvError;
use crate::error::LogFormatFromEnvWithDefaultError;
use crate::log_format::LogFormat;
use crate::log_format::spec_parse_log_format;
use crate::parse_from_env::EnvValue;
use vstd::prelude::*;

verus! {

/// Load a `LogFormat` from the observed state of an env var: an absent
/// variable is an error of its own, a non-unicode value carries its raw
/// bytes, and an unrecognized format name echoes the offending string.
pub fn log_format_from_env(raw: EnvValue) -> (r: Result<LogFormat, LogFormatFromEnvError>)
    ensures
        raw is Absent ==> r == Err::<LogFormat, _>(LogFormatFromEnvError::NotPresent),
        raw matches EnvValue::NotUnicode(b) ==> r == Err::<LogFormat, _>(
            LogFormatFromEnvError::NotUnicode(b),
        ),
        raw matches EnvValue::Present(s) ==> match spec_parse_log_format(s@) {
            Some(f) => r == Ok::<_, LogFormatFromEnvError>(f),
            None => r == Err::<LogFormat, _>(LogFormatFromEnvError::InvalidFormat(s)),
        },
{
    match raw {
        EnvValue::Absent => Err(LogFormatFromEnvError::NotPresent),
        EnvValue::NotUnicode(b) => Err(LogFormatFromEnvError::NotUnicode(b)),
        EnvValue::Present(s) => match LogFormat::parse(s.as_str()) {
            Ok(format) => Ok(format),
            Err(_) => Err(LogFormatFromEnvError::InvalidFormat(s)),
        },
    }
}

/// Load a `LogFormat` from the observed state of an env var, or return the
/// given default if the env var is not set.
pub fn log_format_from_env_with_default(raw: EnvValue, default: LogFormat) -> (r: Result<
    LogFormat,
    LogFormatFromEnvWithDefaultError,
>)
    ensures
        raw is Absent ==> r == Ok::<_, LogFormatFromEnvWithDefaultError>(default),
        raw matches EnvValue::NotUnicode(b) ==> r == Err::<LogFormat, _>(
            LogFormatFromEnvWithDefaultError::NotUnicode(b),
        ),
        raw matches EnvValue::Present(s) ==> match spec_parse_log_format(s@) {
            Some(f) => r == Ok::<_, LogFormatFromEnvWithDefaultError>(f),
            None => r == Err::<LogFormat, _>(LogFormatFromEnvWithDefaultError::InvalidFormat(s)),
        },
{
    match log_format_from_env(raw) {
        Ok(val) => Ok(val),
        Err(LogFormatFromEnvError::NotPresent) => Ok(default),
        Err(LogFormatFromEnvError::NotUnicode(val)) => Err(
            LogFormatFromEnvWithDefaultError::NotUnicode(val),
        ),
        Err(LogFormatFromEnvError::InvalidFormat(val)) => Err(
            LogFormatFromEnvWithDefaultError::InvalidFormat(val),
        ),
    }
}

} // verus!
