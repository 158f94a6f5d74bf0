//! The timestamp of a log file: from the first bytes of its content, or
//! from the time the file system says it was created.

use crate::calendar::{parse_civil, parsed_civil, CivilDateTime};
use crate::text::utf8_text;
use vstd::prelude::*;
use vstd::utf8::{decode_utf8, valid_utf8};

verus! {

/// The number of bytes at the start of a log file that hold its timestamp.
pub const TIMESTAMP_LENGTH: usize = 19;

/// The format of the timestamp at the start of a log file.
pub open spec fn log_time_format() -> Seq<char> {
    "%Y.%m.%d %H:%M:%S"@
}

/// The timestamp of a log file: a civil date-time, and the same moment as
/// an instant in UTC where that is known.
#[derive(Clone, Copy, Debug, PartialEq, Eq, Structural)]
pub struct ResolvedTimestamp {
    pub civil: CivilDateTime,
    pub instant: Option<CivilDateTime>,
}

/// Why the content of a file gives no timestamp.
#[derive(Clone, Copy, Debug, PartialEq, Eq, Structural)]
pub enum TimestampError {
    /// The prefix is not of the length of a timestamp.
    WrongLength,
    /// The prefix is not valid UTF-8.
    InvalidUtf8,
    /// The prefix is not a timestamp in the format of a log file.
    InvalidLog,
}

impl TimestampError {
    /// The message that belongs to the error.
    pub fn message(&self) -> (text: &'static str)
        ensures
            text@ == match self {
                TimestampError::WrongLength => "log file is too short"@,
                TimestampError::InvalidUtf8 => "invalid utf8"@,
                TimestampError::InvalidLog => "invalid VRC log"@,
            },
    {
        match self {
            TimestampError::WrongLength => "log file is too short",
            TimestampError::InvalidUtf8 => "invalid utf8",
            TimestampError::InvalidLog => "invalid VRC log",
        }
    }
}

/// The timestamp that the first bytes of a log file give.
pub open spec fn launch_time(prefix: Seq<u8>) -> Result<ResolvedTimestamp, TimestampError> {
    if prefix.len() != TIMESTAMP_LENGTH {
        Err(TimestampError::WrongLength)
    } else if !valid_utf8(prefix) {
        Err(TimestampError::InvalidUtf8)
    } else {
        match parsed_civil(decode_utf8(prefix), log_time_format()) {
            Some(at) => Ok(ResolvedTimestamp { civil: at, instant: Some(at) }),
            None => Err(TimestampError::InvalidLog),
        }
    }
}

/// Reads the timestamp at the start of a log file: `prefix` is the first
/// `TIMESTAMP_LENGTH` bytes of the content. They are decoded as UTF-8 and
/// read as `YYYY.MM.DD HH:MM:SS`. The civil time that was read also stands
/// as the instant: the log is taken to be written in the zone that the name
/// is asked in.
pub fn assume_launch_time(prefix: &[u8]) -> (found: Result<ResolvedTimestamp, TimestampError>)
    ensures
        found == launch_time(prefix@),
{
    if prefix.len() != TIMESTAMP_LENGTH {
        return Err(TimestampError::WrongLength);
    }
    let text = match utf8_text(prefix) {
        Some(text) => text,
        None => {
            return Err(TimestampError::InvalidUtf8);
        },
    };
    match parse_civil(text, "%Y.%m.%d %H:%M:%S") {
        Some(at) => Ok(ResolvedTimestamp { civil: at, instant: Some(at) }),
        None => Err(TimestampError::InvalidLog),
    }
}

/// The timestamp of a file whose creation time the file system gave, as
/// local civil time and as the same moment in UTC.
pub fn creation_time(local: CivilDateTime, utc: CivilDateTime) -> (found: ResolvedTimestamp)
    ensures
        found == (ResolvedTimestamp { civil: local, instant: Some(utc) }),
{
    ResolvedTimestamp { civil: local, instant: Some(utc) }
}

} // verus!
