use vrc_log_renamer::calendar::CivilDateTime;
use vrc_log_renamer::timestamp::{
    assume_launch_time, creation_time, ResolvedTimestamp, TimestampError, TIMESTAMP_LENGTH,
};

#[test]
fn reads_the_timestamp_of_a_log() {
    let content = b"2022.10.14 20:15:30 Log        -  [Behaviour] ...";
    let found = assume_launch_time(&content[..TIMESTAMP_LENGTH]).unwrap();
    let expected = CivilDateTime {
        year: 2022,
        month: 10,
        day: 14,
        hour: 20,
        minute: 15,
        second: 30,
        nanosecond: 0,
    };
    assert_eq!(found, ResolvedTimestamp { civil: expected, instant: Some(expected) });
}

#[test]
fn the_prefix_has_the_length_of_a_timestamp() {
    assert_eq!(TIMESTAMP_LENGTH, 19);
    assert_eq!(assume_launch_time(b"2022.10.14 20:15:3"), Err(TimestampError::WrongLength));
    assert_eq!(assume_launch_time(b"2022.10.14 20:15:30 "), Err(TimestampError::WrongLength));
    assert_eq!(assume_launch_time(b""), Err(TimestampError::WrongLength));
}

#[test]
fn bytes_that_are_no_text_are_refused() {
    let mut bytes = *b"2022.10.14 20:15:30";
    bytes[3] = 0xff;
    assert_eq!(assume_launch_time(&bytes), Err(TimestampError::InvalidUtf8));
}

#[test]
fn text_that_is_no_timestamp_is_refused() {
    assert_eq!(assume_launch_time(b"2022-10-14 20:15:30"), Err(TimestampError::InvalidLog));
    assert_eq!(assume_launch_time(b"2022.13.14 20:15:30"), Err(TimestampError::InvalidLog));
    assert_eq!(assume_launch_time(b"2022.02.30 20:15:30"), Err(TimestampError::InvalidLog));
    assert_eq!(assume_launch_time(b"2022.10.14 24:15:30"), Err(TimestampError::InvalidLog));
    assert_eq!(assume_launch_time(b"hello, this is text"), Err(TimestampError::InvalidLog));
}

#[test]
fn the_errors_have_their_messages() {
    assert_eq!(TimestampError::InvalidUtf8.message(), "invalid utf8");
    assert_eq!(TimestampError::InvalidLog.message(), "invalid VRC log");
    assert_eq!(TimestampError::WrongLength.message(), "log file is too short");
}

#[test]
fn a_creation_time_keeps_both_readings() {
    let local = CivilDateTime {
        year: 2022,
        month: 10,
        day: 15,
        hour: 5,
        minute: 15,
        second: 30,
        nanosecond: 5,
    };
    let utc = CivilDateTime { day: 14, hour: 20, ..local };
    assert_eq!(creation_time(local, utc), ResolvedTimestamp { civil: local, instant: Some(utc) });
}
