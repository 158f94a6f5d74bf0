use vrc_log_renamer::field::{FieldKind, Pad};
use vrc_log_renamer::parse::parse_pattern;
use vrc_log_renamer::template::{pattern_to_string, PatternError, TemplateItem};

fn lit(text: &str) -> TemplateItem {
    TemplateItem::Literal(text.to_string())
}

fn field(kind: FieldKind, pad: Pad) -> TemplateItem {
    TemplateItem::CalendarField(kind, pad)
}

#[test]
fn parses_the_default_template() {
    let items = parse_pattern("output_log_%Y-%m-%d_%H-%M-%S{regex:in_sec_num}.txt").unwrap();
    assert_eq!(
        items,
        vec![
            lit("output_log_"),
            field(FieldKind::Year, Pad::Zero),
            lit("-"),
            field(FieldKind::Month, Pad::Zero),
            lit("-"),
            field(FieldKind::Day, Pad::Zero),
            lit("_"),
            field(FieldKind::Hour, Pad::Zero),
            lit("-"),
            field(FieldKind::Minute, Pad::Zero),
            lit("-"),
            field(FieldKind::Second, Pad::Zero),
            TemplateItem::NamedPlaceholder("regex".to_string(), "in_sec_num".to_string()),
            lit(".txt"),
        ]
    );
}

#[test]
fn writes_the_default_template_canonically() {
    let items = parse_pattern("output_log_%Y-%m-%d_%H-%M-%S{regex:in_sec_num}.txt").unwrap();
    assert_eq!(
        pattern_to_string(&items).unwrap(),
        "output_log_%0Y-%0m-%0d_%0H-%0M-%0S{regex:in_sec_num}.txt"
    );
}

#[test]
fn canonical_templates_round_trip() {
    for text in [
        "output_log_%0Y-%0m-%0d_%0H-%0M-%0S{regex:in_sec_num}.txt",
        "%-Y %_m %0d",
        "%0C%0y%0G%0g%-q%0U%0W%0V%-w%-u%0j%0I%0f%-s",
        "%b%B%a%A%P%p%.f%.3f%.6f%.9f%3f%6f%9f%Z%z%:z%::z%:::z%+",
        "100%% {a} {b:c} {unterminated",
        "",
        "plain text",
    ] {
        let items = parse_pattern(text).unwrap();
        assert_eq!(pattern_to_string(&items).unwrap(), text, "for {}", text);
    }
}

#[test]
fn every_spelled_field_is_read_back_as_itself() {
    let kinds = [
        FieldKind::Year,
        FieldKind::YearDiv100,
        FieldKind::YearMod100,
        FieldKind::IsoYear,
        FieldKind::IsoYearMod100,
        FieldKind::Quarter,
        FieldKind::Month,
        FieldKind::Day,
        FieldKind::WeekFromSun,
        FieldKind::WeekFromMon,
        FieldKind::IsoWeek,
        FieldKind::NumDaysFromSun,
        FieldKind::WeekdayFromMon,
        FieldKind::Ordinal,
        FieldKind::Hour,
        FieldKind::Hour12,
        FieldKind::Minute,
        FieldKind::Second,
        FieldKind::Nanosecond,
        FieldKind::Timestamp,
    ];
    for kind in kinds {
        for pad in [Pad::Unpadded, Pad::Zero, Pad::Space] {
            let items = vec![field(kind, pad)];
            let text = pattern_to_string(&items).unwrap();
            assert_eq!(parse_pattern(&text), Some(items), "for {}", text);
        }
    }
    let fixed = [
        FieldKind::ShortMonthName,
        FieldKind::LongMonthName,
        FieldKind::ShortWeekdayName,
        FieldKind::LongWeekdayName,
        FieldKind::LowerAmPm,
        FieldKind::UpperAmPm,
        FieldKind::FractionAuto,
        FieldKind::FractionMillis,
        FieldKind::FractionMicros,
        FieldKind::FractionNanos,
        FieldKind::DigitsMillis,
        FieldKind::DigitsMicros,
        FieldKind::DigitsNanos,
        FieldKind::TimezoneName,
        FieldKind::TimezoneOffsetColon,
        FieldKind::TimezoneOffsetDoubleColon,
        FieldKind::TimezoneOffsetTripleColon,
        FieldKind::TimezoneOffset,
        FieldKind::Rfc3339,
    ];
    for kind in fixed {
        let items = vec![field(kind, Pad::Unpadded)];
        let text = pattern_to_string(&items).unwrap();
        assert_eq!(parse_pattern(&text), Some(items), "for {}", text);
    }
}

#[test]
fn unsupported_fields_fail_the_whole_template() {
    assert_eq!(parse_pattern("%#z"), None);
    assert_eq!(parse_pattern("ok_%Y_%#z"), None);
    assert_eq!(parse_pattern("%Q"), None);
    assert_eq!(parse_pattern("%"), None);
    assert_eq!(parse_pattern("abc%"), None);
    assert_eq!(parse_pattern("%0b"), None);
    assert_eq!(parse_pattern("%.4f"), None);
    assert_eq!(parse_pattern("%:y"), None);
}

#[test]
fn the_plain_offset_from_utc_is_a_field() {
    assert_eq!(
        parse_pattern("%z"),
        Some(vec![field(FieldKind::TimezoneOffset, Pad::Unpadded)])
    );
    assert_eq!(pattern_to_string(&parse_pattern("log%z").unwrap()).unwrap(), "log%z");
    assert!(FieldKind::TimezoneOffset.is_accepted());
    assert!(!FieldKind::TimezoneOffsetZ.is_accepted());
    assert!(!FieldKind::TimezoneOffsetColonZ.is_accepted());
}

#[test]
fn composite_specifiers_are_expanded() {
    assert_eq!(
        parse_pattern("%F"),
        Some(vec![
            field(FieldKind::Year, Pad::Zero),
            lit("-"),
            field(FieldKind::Month, Pad::Zero),
            lit("-"),
            field(FieldKind::Day, Pad::Zero),
        ])
    );
    assert_eq!(pattern_to_string(&parse_pattern("%F").unwrap()).unwrap(), "%0Y-%0m-%0d");
}

#[test]
fn braces_without_a_placeholder_are_literal() {
    assert_eq!(parse_pattern("a{b"), Some(vec![lit("a{b")]));
    assert_eq!(parse_pattern("a}b{"), Some(vec![lit("a}b{")]));
    assert_eq!(parse_pattern("{name}"), Some(vec![lit("{name}")]));
    assert_eq!(
        parse_pattern("x{n:v}y"),
        Some(vec![
            lit("x"),
            TemplateItem::NamedPlaceholder("n".to_string(), "v".to_string()),
            lit("y"),
        ])
    );
    assert_eq!(
        parse_pattern("{a:b:c}"),
        Some(vec![TemplateItem::NamedPlaceholder("a".to_string(), "b:c".to_string())])
    );
    assert_eq!(
        parse_pattern("{a{b:c}"),
        Some(vec![TemplateItem::NamedPlaceholder("a{b".to_string(), "c".to_string())])
    );
}

#[test]
fn a_placeholder_does_not_span_whitespace() {
    assert_eq!(
        parse_pattern("{regex:a b}"),
        Some(vec![lit("{regex:a"), lit(" "), lit("b}")])
    );
}

#[test]
fn items_without_a_spelling_are_refused() {
    assert_eq!(pattern_to_string(&vec![TemplateItem::Invalid]), Err(PatternError::FormatError));
    for kind in [
        FieldKind::IsoYearDiv100,
        FieldKind::InternalNumeric,
        FieldKind::TimezoneOffsetColonZ,
        FieldKind::TimezoneOffsetZ,
        FieldKind::Rfc2822,
        FieldKind::InternalFixed,
    ] {
        assert_eq!(
            pattern_to_string(&vec![lit("a"), field(kind, Pad::Zero)]),
            Err(PatternError::InternalFormat)
        );
    }
    assert_eq!(
        pattern_to_string(&vec![field(FieldKind::Rfc2822, Pad::Zero), TemplateItem::Invalid]),
        Err(PatternError::InternalFormat)
    );
    assert_eq!(
        pattern_to_string(&vec![TemplateItem::Invalid, field(FieldKind::Rfc2822, Pad::Zero)]),
        Err(PatternError::FormatError)
    );
    assert_eq!(PatternError::InternalFormat.message(), "internal format found");
    assert_eq!(PatternError::FormatError.message(), "format error found");
}

#[test]
fn percent_in_literal_text_is_doubled() {
    assert_eq!(pattern_to_string(&vec![lit("50%")]).unwrap(), "50%%");
    assert_eq!(parse_pattern("50%%"), Some(vec![lit("50"), lit("%")]));
    assert_eq!(
        pattern_to_string(&vec![field(FieldKind::TimezoneOffset, Pad::Unpadded)]).unwrap(),
        "%z"
    );
}
