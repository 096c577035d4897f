//! The output-format choice and its case-insensitive parser.

use vstd::prelude::*;

verus! {

/// Supported log formats.
#[derive(Debug, PartialEq, Eq, Clone, Copy, Structural)]
pub enum LogFormat {
    /// Output logs in human-readable form.
    Terminal,
    /// Output logs in JSON format (aka JSON Lines).
    Json,
}

/// Error returned on a `LogFormat` parse attempt when an invalid logger
/// format name is passed. Carries the rejected string for diagnostics.
#[derive(Debug, PartialEq)]
pub struct InvalidLogFormat {
    /// The string that is not a format name.
    pub format: String,
}

/// Maps an ASCII uppercase letter to its lowercase form; leaves every other
/// character unchanged.
pub open spec fn lower_char(c: char) -> char {
    if 'A' <= c && c <= 'Z' {
        ((c as int) + 32) as char
    } else {
        c
    }
}

/// Two character sequences are equal up to ASCII case.
pub open spec fn eq_ignore_case(a: Seq<char>, b: Seq<char>) -> bool {
    a.len() == b.len() && forall|i: int| 0 <= i < a.len() ==> lower_char(a[i]) == lower_char(b[i])
}

/// The format a string names, or `None` when it names no format:
/// any ASCII-case spelling of "terminal" or "term" names `Terminal`,
/// any ASCII-case spelling of "json" names `Json`.
pub open spec fn spec_parse_log_format(s: Seq<char>) -> Option<LogFormat> {
    if eq_ignore_case(s, "terminal"@) || eq_ignore_case(s, "term"@) {
        Some(LogFormat::Terminal)
    } else if eq_ignore_case(s, "json"@) {
        Some(LogFormat::Json)
    } else {
        None
    }
}

/// The lowercase canonical spelling of a format's name.
pub open spec fn spec_canonical_name(f: LogFormat) -> Seq<char> {
    match f {
        LogFormat::Terminal => "terminal"@,
        LogFormat::Json => "json"@,
    }
}

fn exec_lower_char(c: char) -> (r: char)
    ensures
        r == lower_char(c),
{
    if 'A' <= c && c <= 'Z' {
        ((c as u8) + 32) as char
    } else {
        c
    }
}

/// Compares two strings for equality up to ASCII case.
fn str_eq_ignore_case(a: &str, b: &str) -> (r: bool)
    ensures
        r == eq_ignore_case(a@, b@),
{
    let a_len = a.unicode_len();
    let b_len = b.unicode_len();
    if a_len != b_len {
        return false;
    }
    let mut i: usize = 0;
    while i < a_len
        invariant
            a_len == a@.len(),
            b_len == b@.len(),
            a_len == b_len,
            0 <= i <= a_len,
            forall|j: int| 0 <= j < i ==> lower_char(a@[j]) == lower_char(b@[j]),
        decreases a_len - i,
    {
        let ca = exec_lower_char(a.get_char(i));
        let cb = exec_lower_char(b.get_char(i));
        if ca != cb {
            return false;
        }
        i += 1;
    }
    true
}

impl LogFormat {
    /// Parses a format name, ignoring ASCII case: "terminal" and "term" name
    /// `Terminal`, "json" names `Json`; anything else, the empty string
    /// included, is rejected with the offending string echoed back.
    pub fn parse(s: &str) -> (r: Result<LogFormat, InvalidLogFormat>)
        ensures
            r matches Ok(f) ==> spec_parse_log_format(s@) == Some(f),
            r matches Err(e) ==> spec_parse_log_format(s@) is None && e.format@ == s@,
            (r is Ok) == (spec_parse_log_format(s@) is Some),
    {
        if str_eq_ignore_case(s, "terminal") || str_eq_ignore_case(s, "term") {
            Ok(LogFormat::Terminal)
        } else if str_eq_ignore_case(s, "json") {
            Ok(LogFormat::Json)
        } else {
            Err(InvalidLogFormat { format: s.to_owned() })
        }
    }

    /// The lowercase canonical spelling of this format's name.
    pub fn canonical_name(&self) -> (r: &'static str)
        ensures
            r@ == spec_canonical_name(*self),
    {
        match self {
            LogFormat::Terminal => "terminal",
            LogFormat::Json => "json",
        }
    }
}

impl core::str::FromStr for LogFormat {
    type Err = InvalidLogFormat;

    fn from_str(item: &str) -> Result<LogFormat, InvalidLogFormat> {
        LogFormat::parse(item)
    }
}

/// Law: parsing the canonical spelling of a format yields that format back.
pub proof fn lemma_parse_canonical_round_trip(f: LogFormat)
    ensures
        spec_parse_log_format(spec_canonical_name(f)) == Some(f),
{
    reveal_strlit("terminal");
    reveal_strlit("term");
    reveal_strlit("json");
    match f {
        LogFormat::Terminal => {
            assert(eq_ignore_case("terminal"@, "terminal"@));
        },
        LogFormat::Json => {
            assert(lower_char("json"@[0]) != lower_char("terminal"@[0]));
            assert(!eq_ignore_case("json"@, "terminal"@));
            assert(lower_char("json"@[0]) != lower_char("term"@[0]));
            assert(!eq_ignore_case("json"@, "term"@));
            assert(eq_ignore_case("json"@, "json"@));
        },
    }
}

/// Law: parsing is case-insensitive — two spellings equal up to ASCII case
/// parse to the same outcome.
pub proof fn lemma_parse_case_insensitive(s: Seq<char>, t: Seq<char>)
    requires
        eq_ignore_case(s, t),
    ensures
        spec_parse_log_format(s) == spec_parse_log_format(t),
{
    assert forall|u: Seq<char>| eq_ignore_case(s, u) implies eq_ignore_case(t, u) by {}
    assert forall|u: Seq<char>| eq_ignore_case(t, u) implies eq_ignore_case(s, u) by {}
}

impl InvalidLogFormat {
    /// Human-readable description of the error.
    pub fn message(&self) -> (m: String)
        ensures
            m@ == "invalid log format: "@ + self.format@,
    {
        let mut m = String::from_str("invalid log format: ");
        m.append(self.format.as_str());
        m
    }
}

} // verus!
