use slog_env_cfg::EnvValue;
use slog_env_cfg::LogFormat;
use slog_env_cfg::LogFormatFromEnvError;
use slog_env_cfg::LogFormatFromEnvWithDefaultError;
use slog_env_cfg::ParseFromEnvError;
use slog_env_cfg::log_format_from_env;
use slog_env_cfg::log_format_from_env_with_default;
use slog_env_cfg::parse_bool;
use slog_env_cfg::parse_from_env;

#[test]
fn log_format_absent_is_not_present() {
    assert_eq!(
        log_format_from_env(EnvValue::Absent),
        Err(LogFormatFromEnvError::NotPresent)
    );
}

#[test]
fn log_format_present_parses() {
    let r = log_format_from_env(EnvValue::Present("JSON".to_string()));
    assert_eq!(r, Ok(LogFormat::Json));
}

#[test]
fn log_format_invalid_echoes_value() {
    let r = log_format_from_env(EnvValue::Present("nope".to_string()));
    assert_eq!(
        r,
        Err(LogFormatFromEnvError::InvalidFormat("nope".to_string()))
    );
}

#[test]
fn log_format_not_unicode_carries_bytes() {
    let r = log_format_from_env(EnvValue::NotUnicode(vec![0xff]));
    assert_eq!(r, Err(LogFormatFromEnvError::NotUnicode(vec![0xff])));
}

#[test]
fn with_default_absent_takes_default() {
    let r = log_format_from_env_with_default(EnvValue::Absent, LogFormat::Json);
    assert_eq!(r, Ok(LogFormat::Json));
}

#[test]
fn with_default_present_overrides_default() {
    let r = log_format_from_env_with_default(
        EnvValue::Present("term".to_string()),
        LogFormat::Json,
    );
    assert_eq!(r, Ok(LogFormat::Terminal));
}

#[test]
fn with_default_invalid_still_fails() {
    let r = log_format_from_env_with_default(EnvValue::Present("".to_string()), LogFormat::Json);
    assert_eq!(
        r,
        Err(LogFormatFromEnvWithDefaultError::InvalidFormat("".to_string()))
    );
}

#[test]
fn with_default_error_messages() {
    let err = log_format_from_env_with_default(
        EnvValue::Present("nope".to_string()),
        LogFormat::Terminal,
    )
    .unwrap_err();
    assert_eq!(
        err.message(),
        "environment variable was not a valid format name: nope"
    );
}

#[test]
fn parse_bool_std_spellings() {
    assert_eq!(parse_bool("true"), Ok(true));
    assert_eq!(parse_bool("false"), Ok(false));
    assert!(parse_bool("TRUE").is_err());
    assert!(parse_bool("1").is_err());
    assert!(parse_bool("").is_err());
}

#[test]
fn resolver_classifies_absent() {
    let r = parse_from_env(EnvValue::Absent, |s: &String| LogFormat::parse(s.as_str()));
    assert_eq!(r, Ok(None));
}

#[test]
fn resolver_classifies_not_unicode() {
    let r = parse_from_env(EnvValue::NotUnicode(vec![1, 2]), |s: &String| {
        LogFormat::parse(s.as_str())
    });
    assert!(matches!(r, Err(ParseFromEnvError::NotUnicode(ref b)) if b == &vec![1, 2]));
}

#[test]
fn resolver_classifies_parse_outcomes() {
    let ok = parse_from_env(EnvValue::Present("json".to_string()), |s: &String| {
        LogFormat::parse(s.as_str())
    });
    assert_eq!(ok, Ok(Some(LogFormat::Json)));

    let bad = parse_from_env(EnvValue::Present("bogus".to_string()), |s: &String| {
        LogFormat::parse(s.as_str())
    });
    match bad {
        Err(ParseFromEnvError::ParseError { string, source }) => {
            assert_eq!(string, "bogus");
            assert_eq!(source.format, "bogus");
        }
        other => panic!("unexpected outcome: {:?}", other),
    }
}

#[test]
fn resolver_error_reports_source() {
    let bad = parse_from_env(EnvValue::Present("bogus".to_string()), |s: &String| {
        LogFormat::parse(s.as_str())
    })
    .unwrap_err();
    assert!(bad.source().is_some());
    let not_unicode = parse_from_env(EnvValue::NotUnicode(vec![9]), |s: &String| {
        LogFormat::parse(s.as_str())
    })
    .unwrap_err();
    assert!(not_unicode.source().is_none());
    assert_eq!(
        not_unicode.message(),
        "environment variable was not valid unicode"
    );
}
