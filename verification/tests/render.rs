use vrc_log_renamer::calendar::CivilDateTime;
use vrc_log_renamer::field::{FieldKind, Pad};
use vrc_log_renamer::matcher::{resolve, Capture};
use vrc_log_renamer::parse::parse_pattern;
use vrc_log_renamer::render::{assemble, format_field, render, RenderError};
use vrc_log_renamer::template::TemplateItem;
use vrc_log_renamer::timestamp::ResolvedTimestamp;

fn at(year: i32, month: u32, day: u32, hour: u32, minute: u32, second: u32) -> CivilDateTime {
    CivilDateTime { year, month, day, hour, minute, second, nanosecond: 0 }
}

fn stamp() -> ResolvedTimestamp {
    let civil = at(2022, 10, 14, 20, 15, 30);
    ResolvedTimestamp { civil, instant: Some(at(2022, 10, 14, 11, 15, 30)) }
}

fn capture(name: &str, value: &str) -> Capture {
    Capture { name: name.to_string(), value: value.to_string() }
}

#[test]
fn renders_the_default_template() {
    let items = parse_pattern("output_log_%Y-%m-%d_%H-%M-%S{regex:in_sec_num}.txt").unwrap();
    let captures = vec![capture("in_sec_num", "5")];
    assert_eq!(
        render(&items, &stamp(), false, &captures).unwrap(),
        "output_log_2022-10-14_20-15-305.txt"
    );
    assert_eq!(
        render(&items, &stamp(), true, &captures).unwrap(),
        "output_log_2022-10-14_11-15-305.txt"
    );
    let none = vec![capture("in_sec_num", "")];
    assert_eq!(
        render(&items, &stamp(), false, &none).unwrap(),
        "output_log_2022-10-14_20-15-30.txt"
    );
}

#[test]
fn unresolved_placeholders_stand_as_written() {
    let items = parse_pattern("a{other:name}b{regex:x}c{plain}").unwrap();
    let captures = vec![capture("x", "X")];
    assert_eq!(render(&items, &stamp(), false, &captures).unwrap(), "a{other:name}bXc{plain}");
}

#[test]
fn a_capture_that_is_not_there_is_empty() {
    let items = parse_pattern("[{regex:missing}]").unwrap();
    assert_eq!(render(&items, &stamp(), false, &vec![]).unwrap(), "[]");
}

#[test]
fn resolves_only_the_regex_namespace() {
    let captures = vec![capture("a", "1"), capture("b", "2"), capture("a", "3")];
    assert_eq!(resolve("regex", "a", &captures), Some("1".to_string()));
    assert_eq!(resolve("regex", "b", &captures), Some("2".to_string()));
    assert_eq!(resolve("regex", "c", &captures), Some(String::new()));
    assert_eq!(resolve("Regex", "a", &captures), None);
    assert_eq!(resolve("", "a", &captures), None);
}

#[test]
fn utc_without_an_instant_fails() {
    let items = parse_pattern("%Y").unwrap();
    let stamp = ResolvedTimestamp { civil: at(2022, 10, 14, 20, 15, 30), instant: None };
    assert_eq!(render(&items, &stamp, true, &vec![]), Err(RenderError::MissingInstant));
    assert_eq!(render(&items, &stamp, false, &vec![]).unwrap(), "2022");
}

#[test]
fn zone_fields_need_an_instant() {
    let items = parse_pattern("%Z %:z").unwrap();
    assert_eq!(render(&items, &stamp(), false, &vec![]), Err(RenderError::Unformattable));
    assert_eq!(render(&items, &stamp(), true, &vec![]).unwrap(), "UTC +00:00");
}

#[test]
fn a_date_that_is_none_cannot_be_formatted() {
    let items = parse_pattern("%Y").unwrap();
    let stamp = ResolvedTimestamp { civil: at(2022, 2, 30, 0, 0, 0), instant: None };
    assert_eq!(render(&items, &stamp, false, &vec![]), Err(RenderError::Unformattable));
}

#[test]
fn illegal_items_fail_the_rendering() {
    let stamp = stamp();
    assert_eq!(
        render(&vec![TemplateItem::Invalid], &stamp, false, &vec![]),
        Err(RenderError::InvalidItem)
    );
    assert_eq!(
        render(
            &vec![TemplateItem::CalendarField(FieldKind::Rfc2822, Pad::Zero)],
            &stamp,
            false,
            &vec![]
        ),
        Err(RenderError::InvalidItem)
    );
}

#[test]
fn formats_each_field_by_its_padding() {
    let t = CivilDateTime {
        year: 2022,
        month: 3,
        day: 4,
        hour: 5,
        minute: 6,
        second: 7,
        nanosecond: 123_456_789,
    };
    let cases = [
        (FieldKind::Year, Pad::Zero, "2022"),
        (FieldKind::YearDiv100, Pad::Zero, "20"),
        (FieldKind::YearMod100, Pad::Zero, "22"),
        (FieldKind::Month, Pad::Zero, "03"),
        (FieldKind::Month, Pad::Unpadded, "3"),
        (FieldKind::Month, Pad::Space, " 3"),
        (FieldKind::Day, Pad::Zero, "04"),
        (FieldKind::Hour, Pad::Zero, "05"),
        (FieldKind::Hour12, Pad::Zero, "05"),
        (FieldKind::Minute, Pad::Zero, "06"),
        (FieldKind::Second, Pad::Zero, "07"),
        (FieldKind::Nanosecond, Pad::Zero, "123456789"),
        (FieldKind::Quarter, Pad::Unpadded, "1"),
        (FieldKind::Ordinal, Pad::Zero, "063"),
        (FieldKind::IsoYear, Pad::Zero, "2022"),
        (FieldKind::IsoWeek, Pad::Zero, "09"),
        (FieldKind::WeekFromSun, Pad::Zero, "09"),
        (FieldKind::WeekFromMon, Pad::Zero, "09"),
        (FieldKind::NumDaysFromSun, Pad::Unpadded, "5"),
        (FieldKind::WeekdayFromMon, Pad::Unpadded, "5"),
        (FieldKind::Timestamp, Pad::Unpadded, "1646370367"),
        (FieldKind::ShortMonthName, Pad::Unpadded, "Mar"),
        (FieldKind::LongMonthName, Pad::Unpadded, "March"),
        (FieldKind::ShortWeekdayName, Pad::Unpadded, "Fri"),
        (FieldKind::LongWeekdayName, Pad::Unpadded, "Friday"),
        (FieldKind::LowerAmPm, Pad::Unpadded, "am"),
        (FieldKind::UpperAmPm, Pad::Unpadded, "AM"),
        (FieldKind::FractionAuto, Pad::Unpadded, ".123456789"),
        (FieldKind::FractionMillis, Pad::Unpadded, ".123"),
        (FieldKind::FractionMicros, Pad::Unpadded, ".123456"),
        (FieldKind::FractionNanos, Pad::Unpadded, ".123456789"),
        (FieldKind::DigitsMillis, Pad::Unpadded, "123"),
        (FieldKind::DigitsMicros, Pad::Unpadded, "123456"),
        (FieldKind::DigitsNanos, Pad::Unpadded, "123456789"),
    ];
    for (kind, pad, expected) in cases {
        assert_eq!(
            format_field(kind, pad, &t, false),
            Some(expected.to_string()),
            "{:?} {:?}",
            kind,
            pad
        );
    }
    assert_eq!(
        format_field(FieldKind::Rfc3339, Pad::Unpadded, &t, true),
        Some("2022-03-04T05:06:07.123456789+00:00".to_string())
    );
    assert_eq!(format_field(FieldKind::Rfc3339, Pad::Unpadded, &t, false), None);
    assert_eq!(format_field(FieldKind::TimezoneName, Pad::Unpadded, &t, true), Some("UTC".to_string()));
    assert_eq!(format_field(FieldKind::TimezoneOffset, Pad::Unpadded, &t, true), Some("+0000".to_string()));
    assert_eq!(format_field(FieldKind::IsoYearDiv100, Pad::Zero, &t, false), None);
}

#[test]
fn assembles_from_what_was_found() {
    let items = vec![
        TemplateItem::Literal("a%".to_string()),
        TemplateItem::CalendarField(FieldKind::Year, Pad::Zero),
        TemplateItem::NamedPlaceholder("n".to_string(), "v".to_string()),
        TemplateItem::NamedPlaceholder("n".to_string(), "w".to_string()),
    ];
    let values = vec![None, Some("2022".to_string()), Some("!".to_string()), None];
    assert_eq!(assemble(&items, &values).unwrap(), "a%2022!{n:w}");
    let short = vec![None, Some("2022".to_string())];
    assert_eq!(assemble(&items, &short).unwrap(), "a%2022{n:v}{n:w}");
    assert_eq!(assemble(&items, &vec![]), Err(RenderError::Unformattable));
    assert_eq!(assemble(&vec![], &vec![]).unwrap(), "");
}
