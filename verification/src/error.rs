//! Error taxonomy of the single-variable format loaders.

use vstd::prelude::*;

verus! {

/// `LogFormatFromEnvError` captures all possible errors that can occur when
/// the log format is constructed from the system environment variables.
#[derive(Debug, PartialEq)]
pub enum LogFormatFromEnvError {
    /// The variable is not set.
    NotPresent,
    /// The variable's value is not valid unicode; carries the raw bytes.
    /// Never silently defaulted — distinguished from "absent".
    NotUnicode(Vec<u8>),
    /// The variable's value names no format; carries the offending string.
    InvalidFormat(String),
}

/// `LogFormatFromEnvWithDefaultError` captures all possible errors that can
/// occur when the log format is constructed from the system environment
/// variables, with the error cases handled by default assignment logic
/// excluded.
#[derive(Debug, PartialEq)]
pub enum LogFormatFromEnvWithDefaultError {
    /// The variable's value is not valid unicode; carries the raw bytes.
    NotUnicode(Vec<u8>),
    /// The variable's value names no format; carries the offending string.
    InvalidFormat(String),
}

impl LogFormatFromEnvError {
    /// Human-readable description of the error.
    pub fn message(&self) -> (m: String)
        ensures
            match *self {
                LogFormatFromEnvError::NotPresent => m@ == "environment variable not found"@,
                LogFormatFromEnvError::NotUnicode(_) => m@
                    == "environment variable was not valid unicode"@,
                LogFormatFromEnvError::InvalidFormat(s) => m@
                    == "environment variable was not a valid format name: "@ + s@,
            },
    {
        match self {
            LogFormatFromEnvError::NotPresent => {
                String::from_str("environment variable not found")
            },
            LogFormatFromEnvError::NotUnicode(_) => {
                String::from_str("environment variable was not valid unicode")
            },
            LogFormatFromEnvError::InvalidFormat(s) => {
                let mut m = String::from_str("environment variable was not a valid format name: ");
                m.append(s.as_str());
                m
            },
        }
    }
}

impl LogFormatFromEnvWithDefaultError {
    /// Human-readable description of the error.
    pub fn message(&self) -> (m: String)
        ensures
            match *self {
                LogFormatFromEnvWithDefaultError::NotUnicode(_) => m@
                    == "environment variable was not valid unicode"@,
                LogFormatFromEnvWithDefaultError::InvalidFormat(s) => m@
                    == "environment variable was not a valid format name: "@ + s@,
            },
    {
        match self {
            LogFormatFromEnvWithDefaultError::NotUnicode(_) => {
                String::from_str("environment variable was not valid unicode")
            },
            LogFormatFromEnvWithDefaultError::InvalidFormat(s) => {
                let mut m = String::from_str("environment variable was not a valid format name: ");
                m.append(s.as_str());
                m
            },
        }
    }
}

} // verus!
