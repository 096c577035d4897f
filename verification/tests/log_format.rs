use slog_env_cfg::LogFormat;

#[test]
fn parse_terminal_spellings() {
    for s in ["terminal", "TERMINAL", "Terminal", "tErMiNaL", "term", "TERM", "Term", "tErM"] {
        assert_eq!(LogFormat::parse(s).unwrap(), LogFormat::Terminal, "spelling: {}", s);
    }
}

#[test]
fn parse_json_spellings() {
    for s in ["json", "JSON", "Json", "jSoN"] {
        assert_eq!(LogFormat::parse(s).unwrap(), LogFormat::Json, "spelling: {}", s);
    }
}

#[test]
fn parse_rejects_everything_else() {
    for s in ["", "invalid", "termina", "terminals", "jsonl", " json", "json ", "te rm", "tÉrm"] {
        let err = LogFormat::parse(s).unwrap_err();
        assert_eq!(err.format, s, "rejected string must be echoed exactly");
    }
}

#[test]
fn parse_via_from_str() {
    let parsed: LogFormat = "term".parse().unwrap();
    assert_eq!(parsed, LogFormat::Terminal);
    assert!("nope".parse::<LogFormat>().is_err());
}

#[test]
fn canonical_round_trip() {
    for f in [LogFormat::Terminal, LogFormat::Json] {
        assert_eq!(LogFormat::parse(f.canonical_name()).unwrap(), f);
    }
    assert_eq!(LogFormat::Terminal.canonical_name(), "terminal");
    assert_eq!(LogFormat::Json.canonical_name(), "json");
}

#[test]
fn invalid_format_message() {
    let err = LogFormat::parse("nope").unwrap_err();
    assert_eq!(err.message(), "invalid log format: nope");
}
