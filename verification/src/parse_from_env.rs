//! Generic resolution of one environment variable into a parsed value.

use vstd::prelude::*;

verus! {

/// The observed state of one environment variable, as handed over by the
/// embedding application: absent, present but not representable as valid
/// unicode (the raw bytes), or present with its text value. Resolution is a
/// pure read with no caching — the caller reads the live environment anew for
/// every load.
#[derive(Debug, PartialEq, Clone)]
pub enum EnvValue {
    /// The variable is not set.
    Absent,
    /// The variable is set but its value is not valid unicode.
    NotUnicode(Vec<u8>),
    /// The variable is set to this text value.
    Present(String),
}

/// `ParseFromEnvError` captures all possible errors that can occur when a
/// value is constructed from the system environment variables.
#[derive(Debug, PartialEq)]
pub enum ParseFromEnvError<T> {
    /// The variable's value is not valid unicode; carries the raw bytes.
    NotUnicode(Vec<u8>),
    /// The variable's value does not parse; carries the offending string and
    /// the per-field parser's own error, so diagnostics show the input.
    ParseError {
        /// The value that failed to parse.
        string: String,
        /// The parser's error.
        source: T,
    },
}

impl<T> ParseFromEnvError<T> {
    /// The text [`ParseFromEnvError::message`] returns.
    pub open spec fn spec_message(&self) -> Seq<char> {
        match *self {
            ParseFromEnvError::NotUnicode(_) => "environment variable was not valid unicode"@,
            ParseFromEnvError::ParseError { string, .. } => {
                "environment variable value could not be parsed, value was: "@ + string@
            },
        }
    }

    /// Human-readable description of the error. A failed parse echoes the
    /// offending value; the underlying parser error is available through
    /// [`ParseFromEnvError::source`].
    pub fn message(&self) -> (m: String)
        ensures
            m@ == self.spec_message(),
    {
        match self {
            ParseFromEnvError::NotUnicode(_) => {
                String::from_str("environment variable was not valid unicode")
            },
            ParseFromEnvError::ParseError { string, .. } => {
                let mut m = String::from_str(
                    "environment variable value could not be parsed, value was: ",
                );
                m.append(string.as_str());
                m
            },
        }
    }

    /// The underlying parser error, when there is one.
    pub fn source(&self) -> (r: Option<&T>)
        ensures
            match *self {
                ParseFromEnvError::NotUnicode(_) => r is None,
                ParseFromEnvError::ParseError { source, .. } => r matches Some(t) && *t
                    == source,
            },
    {
        match self {
            ParseFromEnvError::ParseError { source, .. } => Some(source),
            ParseFromEnvError::NotUnicode(_) => None,
        }
    }
}

/// Resolves one environment variable state with the supplied parser,
/// classifying the outcome: an absent variable yields `Ok(None)` (the caller
/// applies its per-field default), a non-unicode value aborts with its raw
/// bytes, a value the parser rejects aborts with the offending string and the
/// parser's error, and a parsed value yields `Ok(Some(..))`.
pub fn parse_from_env<V, E, F: Fn(&String) -> Result<V, E>>(raw: EnvValue, parse: F) -> (r: Result<
    Option<V>,
    ParseFromEnvError<E>,
>)
    requires
        forall|s: &String| call_requires(parse, (s,)),
    ensures
        raw is Absent ==> r == Ok::<Option<V>, ParseFromEnvError<E>>(None),
        raw matches EnvValue::NotUnicode(b) ==> r == Err::<Option<V>, ParseFromEnvError<E>>(
            ParseFromEnvError::NotUnicode(b),
        ),
        raw matches EnvValue::Present(s) ==> match r {
            Ok(o) => o matches Some(v) && call_ensures(parse, (&s,), Ok(v)),
            Err(e) => e matches ParseFromEnvError::ParseError { string, source } && string == s
                && call_ensures(parse, (&s,), Err(source)),
        },
{
    match raw {
        EnvValue::Absent => Ok(None),
        EnvValue::NotUnicode(b) => Err(ParseFromEnvError::NotUnicode(b)),
        EnvValue::Present(s) => match parse(&s) {
            Ok(v) => Ok(Some(v)),
            Err(e) => Err(ParseFromEnvError::ParseError { string: s, source: e }),
        },
    }
}

} // verus!
