//! Loading a full [`Config`] from the observed environment state.

use crate::config::Config;
use crate::config::ConfigView;
use crate::log_format::InvalidLogFormat;
use crate::log_format::LogFormat;
use crate::log_format::spec_parse_log_format;
use crate::parse_from_env::EnvValue;
use crate::parse_from_env::ParseFromEnvError;
use crate::parse_from_env::parse_from_env;
use std::convert::Infallible;
use vstd::prelude::*;

verus! {

/// Canonical name of the format variable.
pub const LOG_FORMAT_ENV_KEY: &'static str = "LOG_FORMAT";

/// Canonical name of the disable-env-logger flag variable.
pub const DISABLE_ENV_LOGGER_ENV_KEY: &'static str = "DISABLE_ENV_LOGGER";

/// Canonical name of the filter-expression variable.
pub const ENV_LOGGER_FILTERS_ENV_KEY: &'static str = "RUST_LOG";

/// The filter expression used as the override default: when no expression is
/// configured, this documented literal replaces the engine's own built-in
/// quiet default.
pub const ENV_LOGGER_OVERRIDE_DEFAULT_FILTER_DEFAULT: &'static str = "debug";

/// The observed states of the three configuration variables, as read by the
/// embedding application immediately before loading. Resolution does not
/// cache: every load observes the live environment anew.
#[derive(Debug, PartialEq, Clone)]
pub struct EnvSnapshot {
    /// State of the format variable (canonically `LOG_FORMAT`).
    pub log_format: EnvValue,
    /// State of the disable-env-logger flag variable (canonically
    /// `DISABLE_ENV_LOGGER`).
    pub disable_env_logger: EnvValue,
    /// State of the filter-expression variable (canonically `RUST_LOG`).
    pub env_logger_filters: EnvValue,
}

/// Error returned on a `bool` parse attempt when the value is neither "true"
/// nor "false".
#[derive(Debug, PartialEq)]
pub struct ParseBoolError;

/// The boolean a string names, or `None`: exactly "true" and "false" are
/// accepted, matching case-sensitively.
pub open spec fn spec_parse_bool(s: Seq<char>) -> Option<bool> {
    if s == "true"@ {
        Some(true)
    } else if s == "false"@ {
        Some(false)
    } else {
        None
    }
}

/// Compares two strings character by character.
fn str_eq(a: &str, b: &str) -> (r: bool)
    ensures
        r == (a@ == b@),
{
    let a_len = a.unicode_len();
    let b_len = b.unicode_len();
    if a_len != b_len {
        return false;
    }
    let mut i: usize = 0;
    while i < a_len
        invariant
            a_len == a@.len(),
            b_len == b@.len(),
            a_len == b_len,
            0 <= i <= a_len,
            forall|j: int| 0 <= j < i ==> a@[j] == b@[j],
        decreases a_len - i,
    {
        let ca = a.get_char(i);
        let cb = b.get_char(i);
        if ca != cb {
            return false;
        }
        i += 1;
    }
    proof {
        assert(a@ =~= b@);
    }
    true
}

/// Parses a boolean the way the standard library spells it: "true" and
/// "false", case-sensitively; everything else is rejected.
pub fn parse_bool(s: &str) -> (r: Result<bool, ParseBoolError>)
    ensures
        r matches Ok(b) ==> spec_parse_bool(s@) == Some(b),
        r is Err ==> spec_parse_bool(s@) is None,
        (r is Ok) == (spec_parse_bool(s@) is Some),
{
    if str_eq(s, "true") {
        Ok(true)
    } else if str_eq(s, "false") {
        Ok(false)
    } else {
        Err(ParseBoolError)
    }
}

/// Aggregate error of [`config_from_env`], tagged by the configuration field
/// that failed; the loader fails fast on the first invalid field.
#[derive(Debug)]
pub enum ConfigFromEnvError {
    /// The format variable failed to resolve.
    InvalidLogFormat(ParseFromEnvError<InvalidLogFormat>),
    /// The disable-env-logger flag variable failed to resolve.
    InvalidBool(ParseFromEnvError<ParseBoolError>),
    /// The filter-expression variable failed to resolve; only a non-unicode
    /// value can cause this, since the raw string itself always parses.
    InvalidInfallible(ParseFromEnvError<Infallible>),
}

impl ConfigFromEnvError {
    /// Human-readable description of the error.
    pub fn message(&self) -> (m: String)
        ensures
            match *self {
                ConfigFromEnvError::InvalidLogFormat(e) => m@ == e.spec_message(),
                ConfigFromEnvError::InvalidBool(e) => m@ == e.spec_message(),
                ConfigFromEnvError::InvalidInfallible(e) => m@ == e.spec_message(),
            },
    {
        match self {
            ConfigFromEnvError::InvalidLogFormat(err) => err.message(),
            ConfigFromEnvError::InvalidBool(err) => err.message(),
            ConfigFromEnvError::InvalidInfallible(err) => err.message(),
        }
    }
}

impl From<ParseFromEnvError<InvalidLogFormat>> for ConfigFromEnvError {
    fn from(err: ParseFromEnvError<InvalidLogFormat>) -> (r: Self) {
        ConfigFromEnvError::InvalidLogFormat(err)
    }
}

impl vstd::std_specs::convert::FromSpecImpl<ParseFromEnvError<InvalidLogFormat>> for ConfigFromEnvError {
    open spec fn obeys_from_spec() -> bool {
        true
    }

    open spec fn from_spec(err: ParseFromEnvError<InvalidLogFormat>) -> Self {
        ConfigFromEnvError::InvalidLogFormat(err)
    }
}

impl From<ParseFromEnvError<ParseBoolError>> for ConfigFromEnvError {
    fn from(err: ParseFromEnvError<ParseBoolError>) -> (r: Self) {
        ConfigFromEnvError::InvalidBool(err)
    }
}

impl vstd::std_specs::convert::FromSpecImpl<ParseFromEnvError<ParseBoolError>> for ConfigFromEnvError {
    open spec fn obeys_from_spec() -> bool {
        true
    }

    open spec fn from_spec(err: ParseFromEnvError<ParseBoolError>) -> Self {
        ConfigFromEnvError::InvalidBool(err)
    }
}

impl From<ParseFromEnvError<Infallible>> for ConfigFromEnvError {
    fn from(err: ParseFromEnvError<Infallible>) -> (r: Self) {
        ConfigFromEnvError::InvalidInfallible(err)
    }
}

impl vstd::std_specs::convert::FromSpecImpl<ParseFromEnvError<Infallible>> for ConfigFromEnvError {
    open spec fn obeys_from_spec() -> bool {
        true
    }

    open spec fn from_spec(err: ParseFromEnvError<Infallible>) -> Self {
        ConfigFromEnvError::InvalidInfallible(err)
    }
}

/// The format the format variable resolves to, or `None` when it aborts the
/// load: absent means the `Terminal` default.
pub open spec fn spec_format_resolves(v: EnvValue) -> Option<LogFormat> {
    match v {
        EnvValue::Absent => Some(LogFormat::Terminal),
        EnvValue::NotUnicode(_) => None,
        EnvValue::Present(s) => spec_parse_log_format(s@),
    }
}

/// The flag the disable-env-logger variable resolves to, or `None` when it
/// aborts the load: absent means `false`.
pub open spec fn spec_disable_resolves(v: EnvValue) -> Option<bool> {
    match v {
        EnvValue::Absent => Some(false),
        EnvValue::NotUnicode(_) => None,
        EnvValue::Present(s) => spec_parse_bool(s@),
    }
}

/// The expression the filter-expression variable resolves to, or `None` when
/// it aborts the load. A present-but-empty value resolves to `Some(Some(""))`,
/// distinct from the absent `Some(None)`.
pub open spec fn spec_filters_resolve(v: EnvValue) -> Option<Option<Seq<char>>> {
    match v {
        EnvValue::Absent => Some(None),
        EnvValue::NotUnicode(_) => None,
        EnvValue::Present(s) => Some(Some(s@)),
    }
}

/// Whether every configuration variable resolves, i.e. whether loading
/// succeeds. Absence never fails a field; only a non-unicode value or a
/// failed parse does.
pub open spec fn spec_env_resolves(env: EnvSnapshot) -> bool {
    &&& spec_format_resolves(env.log_format) is Some
    &&& spec_disable_resolves(env.disable_env_logger) is Some
    &&& spec_filters_resolve(env.env_logger_filters) is Some
}

/// The configuration an environment resolves to, when it resolves.
pub open spec fn spec_resolved_config(env: EnvSnapshot) -> ConfigView {
    ConfigView {
        format: spec_format_resolves(env.log_format)->Some_0,
        disable_env_logger: spec_disable_resolves(env.disable_env_logger)->Some_0,
        env_logger_filters: spec_filters_resolve(env.env_logger_filters)->Some_0,
        env_logger_override_default_filter: Some("debug"@),
    }
}

/// The error a failed load must carry: the first failing field in load order
/// — format, then flag, then expression — echoing the offending value.
pub open spec fn spec_load_error(env: EnvSnapshot, e: ConfigFromEnvError) -> bool {
    &&& (env.log_format matches EnvValue::NotUnicode(b) ==> e
        == ConfigFromEnvError::InvalidLogFormat(ParseFromEnvError::NotUnicode(b)))
    &&& (env.log_format matches EnvValue::Present(s) ==> (spec_parse_log_format(s@) is None ==> (
    e matches ConfigFromEnvError::InvalidLogFormat(ParseFromEnvError::ParseError {
        string,
        source,
    }) && string == s && source.format@ == s@)))
    &&& (spec_format_resolves(env.log_format) is Some ==> (env.disable_env_logger matches
        EnvValue::NotUnicode(b) ==> e == ConfigFromEnvError::InvalidBool(
        ParseFromEnvError::NotUnicode(b),
    )))
    &&& (spec_format_resolves(env.log_format) is Some ==> (env.disable_env_logger matches
        EnvValue::Present(s) ==> (spec_parse_bool(s@) is None ==> (e matches
        ConfigFromEnvError::InvalidBool(ParseFromEnvError::ParseError { string, .. }) && string
            == s))))
    &&& ((spec_format_resolves(env.log_format) is Some && spec_disable_resolves(
        env.disable_env_logger,
    ) is Some) ==> (env.env_logger_filters matches EnvValue::NotUnicode(b) ==> e
        == ConfigFromEnvError::InvalidInfallible(ParseFromEnvError::NotUnicode(b))))
}

/// Build a [`Config`] from the observed environment state, applying
/// opinionated defaults: `Terminal` format and enabled filtering when the
/// variables are absent, and "debug" as the override default filter. Fails
/// fast on the first invalid field — format, then flag, then expression —
/// tagged with that field and echoing the offending value.
pub fn config_from_env(env: EnvSnapshot) -> (r: Result<Config, ConfigFromEnvError>)
    ensures
        r matches Ok(c) ==> spec_env_resolves(env) && c@ == spec_resolved_config(env),
        r matches Err(e) ==> !spec_env_resolves(env) && spec_load_error(env, e),
{
    let EnvSnapshot { log_format, disable_env_logger, env_logger_filters } = env;

    let format_parse = |s: &String| -> (pr: Result<LogFormat, InvalidLogFormat>)
        ensures
            pr matches Ok(f) ==> spec_parse_log_format(s@) == Some(f),
            pr matches Err(e) ==> spec_parse_log_format(s@) is None && e.format@ == s@,
            (pr is Ok) == (spec_parse_log_format(s@) is Some),
        { LogFormat::parse(s.as_str()) };
    let format = match parse_from_env(log_format, format_parse) {
        Ok(Some(f)) => f,
        Ok(None) => LogFormat::Terminal,
        Err(e) => {
            return Err(ConfigFromEnvError::InvalidLogFormat(e));
        },
    };

    let bool_parse = |s: &String| -> (pr: Result<bool, ParseBoolError>)
        ensures
            pr matches Ok(b) ==> spec_parse_bool(s@) == Some(b),
            pr is Err ==> spec_parse_bool(s@) is None,
            (pr is Ok) == (spec_parse_bool(s@) is Some),
        { parse_bool(s.as_str()) };
    let disable_env_logger = match parse_from_env(disable_env_logger, bool_parse) {
        Ok(Some(b)) => b,
        Ok(None) => false,
        Err(e) => {
            return Err(ConfigFromEnvError::InvalidBool(e));
        },
    };

    let identity_parse = |s: &String| -> (pr: Result<String, Infallible>)
        ensures
            pr matches Ok(v) && v@ == s@,
        { Ok(s.as_str().to_owned()) };
    let env_logger_filters = match parse_from_env(env_logger_filters, identity_parse) {
        Ok(v) => v,
        Err(e) => {
            return Err(ConfigFromEnvError::InvalidInfallible(e));
        },
    };

    let env_logger_override_default_filter = Some(
        String::from_str(ENV_LOGGER_OVERRIDE_DEFAULT_FILTER_DEFAULT),
    );

    Ok(Config { format, disable_env_logger, env_logger_filters, env_logger_override_default_filter })
}

} // verus!
