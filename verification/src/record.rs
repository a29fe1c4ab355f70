//! The data model: severity levels, clock times, and whole log records.

use vstd::prelude::*;

verus! {

/// One of the four recognized severities, ordered from least to most severe.
#[derive(Clone, Copy, Debug, PartialEq, Eq, Structural)]
pub enum LogLevel {
    Debug,
    Info,
    Warning,
    Error,
}

/// A wall-clock time of day, already converted to the local timezone.
#[derive(Clone, Copy, Debug, PartialEq, Eq, Structural)]
pub struct TimeOfDay {
    pub hour: u8,
    pub minute: u8,
    pub second: u8,
}

impl TimeOfDay {
    /// The fields describe a real clock reading.
    pub open spec fn wf(self) -> bool {
        self.hour < 24 && self.minute < 60 && self.second < 60
    }
}

/// One parsed input line.
///
/// The auxiliary `extra` value of the input is an arbitrary JSON value; the
/// record keeps it as its compact serialized text (`extra_text`), which is
/// all the renderer reads of it.
#[derive(Debug)]
pub struct LogRecord {
    pub time: TimeOfDay,
    pub level: LogLevel,
    pub message: String,
    pub extra_text: String,
}

impl LogRecord {
    pub open spec fn wf(self) -> bool {
        self.time.wf()
    }
}

/// Why a line could not be decoded into a [`LogRecord`].
#[derive(Clone, Copy, Debug, PartialEq, Eq, Structural)]
pub enum DecodeError {
    /// The line is not syntactically valid JSON.
    MalformedJson,
    /// The line is valid JSON but does not have the record's shape:
    /// a required field is missing or mistyped, the level token is not one
    /// of the four recognized names, or the timestamp does not parse.
    SchemaMismatch,
}

/// The level a token denotes: exactly the four names, case-sensitively.
pub open spec fn spec_level_of(s: Seq<char>) -> Option<LogLevel> {
    if s == "DEBUG"@ {
        Some(LogLevel::Debug)
    } else if s == "INFO"@ {
        Some(LogLevel::Info)
    } else if s == "WARNING"@ {
        Some(LogLevel::Warning)
    } else if s == "ERROR"@ {
        Some(LogLevel::Error)
    } else {
        None
    }
}

/// Recognize a severity token.
pub fn level_from_token(token: &str) -> (r: Option<LogLevel>)
    ensures
        r == spec_level_of(token@),
{
    let t = token.to_owned();
    if t == "DEBUG".to_owned() {
        Some(LogLevel::Debug)
    } else if t == "INFO".to_owned() {
        Some(LogLevel::Info)
    } else if t == "WARNING".to_owned() {
        Some(LogLevel::Warning)
    } else if t == "ERROR".to_owned() {
        Some(LogLevel::Error)
    } else {
        None
    }
}

} // verus!
