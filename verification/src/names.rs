//! The names under which the tokenizer hands out calendar fields, and the
//! field kinds they stand for.

use crate::field::{FieldKind, Pad};
use crate::text::same_text;
use vstd::prelude::*;

verus! {

/// The numeric field that goes by `name`; `InternalNumeric` for a name that
/// is not in the table.
pub open spec fn numeric_kind_named(name: Seq<char>) -> FieldKind {
    if name == "Year"@ {
        FieldKind::Year
    } else if name == "YearDiv100"@ {
        FieldKind::YearDiv100
    } else if name == "YearMod100"@ {
        FieldKind::YearMod100
    } else if name == "IsoYear"@ {
        FieldKind::IsoYear
    } else if name == "IsoYearDiv100"@ {
        FieldKind::IsoYearDiv100
    } else if name == "IsoYearMod100"@ {
        FieldKind::IsoYearMod100
    } else if name == "Quarter"@ {
        FieldKind::Quarter
    } else if name == "Month"@ {
        FieldKind::Month
    } else if name == "Day"@ {
        FieldKind::Day
    } else if name == "WeekFromSun"@ {
        FieldKind::WeekFromSun
    } else if name == "WeekFromMon"@ {
        FieldKind::WeekFromMon
    } else if name == "IsoWeek"@ {
        FieldKind::IsoWeek
    } else if name == "NumDaysFromSun"@ {
        FieldKind::NumDaysFromSun
    } else if name == "WeekdayFromMon"@ {
        FieldKind::WeekdayFromMon
    } else if name == "Ordinal"@ {
        FieldKind::Ordinal
    } else if name == "Hour"@ {
        FieldKind::Hour
    } else if name == "Hour12"@ {
        FieldKind::Hour12
    } else if name == "Minute"@ {
        FieldKind::Minute
    } else if name == "Second"@ {
        FieldKind::Second
    } else if name == "Nanosecond"@ {
        FieldKind::Nanosecond
    } else if name == "Timestamp"@ {
        FieldKind::Timestamp
    } else {
        FieldKind::InternalNumeric
    }
}

/// The fixed-format field that goes by `name`; `InternalFixed` for a name
/// that is not in the table.
pub open spec fn fixed_kind_named(name: Seq<char>) -> FieldKind {
    if name == "ShortMonthName"@ {
        FieldKind::ShortMonthName
    } else if name == "LongMonthName"@ {
        FieldKind::LongMonthName
    } else if name == "ShortWeekdayName"@ {
        FieldKind::ShortWeekdayName
    } else if name == "LongWeekdayName"@ {
        FieldKind::LongWeekdayName
    } else if name == "LowerAmPm"@ {
        FieldKind::LowerAmPm
    } else if name == "UpperAmPm"@ {
        FieldKind::UpperAmPm
    } else if name == "Nanosecond"@ {
        FieldKind::FractionAuto
    } else if name == "Nanosecond3"@ {
        FieldKind::FractionMillis
    } else if name == "Nanosecond6"@ {
        FieldKind::FractionMicros
    } else if name == "Nanosecond9"@ {
        FieldKind::FractionNanos
    } else if name == "TimezoneName"@ {
        FieldKind::TimezoneName
    } else if name == "TimezoneOffsetColon"@ {
        FieldKind::TimezoneOffsetColon
    } else if name == "TimezoneOffsetDoubleColon"@ {
        FieldKind::TimezoneOffsetDoubleColon
    } else if name == "TimezoneOffsetTripleColon"@ {
        FieldKind::TimezoneOffsetTripleColon
    } else if name == "TimezoneOffsetColonZ"@ {
        FieldKind::TimezoneOffsetColonZ
    } else if name == "TimezoneOffset"@ {
        FieldKind::TimezoneOffset
    } else if name == "TimezoneOffsetZ"@ {
        FieldKind::TimezoneOffsetZ
    } else if name == "RFC2822"@ {
        FieldKind::Rfc2822
    } else if name == "RFC3339"@ {
        FieldKind::Rfc3339
    } else if name == "Internal(InternalFixed { val: Nanosecond3NoDot })"@ {
        FieldKind::DigitsMillis
    } else if name == "Internal(InternalFixed { val: Nanosecond6NoDot })"@ {
        FieldKind::DigitsMicros
    } else if name == "Internal(InternalFixed { val: Nanosecond9NoDot })"@ {
        FieldKind::DigitsNanos
    } else {
        FieldKind::InternalFixed
    }
}

/// The padding that goes by `name`, if any does.
pub open spec fn pad_named(name: Seq<char>) -> Option<Pad> {
    if name == "None"@ {
        Some(Pad::Unpadded)
    } else if name == "Zero"@ {
        Some(Pad::Zero)
    } else if name == "Space"@ {
        Some(Pad::Space)
    } else {
        None
    }
}

/// Looks a numeric field up by the name of its kind.
pub fn numeric_kind(name: &str) -> (kind: FieldKind)
    ensures
        kind == numeric_kind_named(name@),
{
    if same_text(name, "Year") {
        FieldKind::Year
    } else if same_text(name, "YearDiv100") {
        FieldKind::YearDiv100
    } else if same_text(name, "YearMod100") {
        FieldKind::YearMod100
    } else if same_text(name, "IsoYear") {
        FieldKind::IsoYear
    } else if same_text(name, "IsoYearDiv100") {
        FieldKind::IsoYearDiv100
    } else if same_text(name, "IsoYearMod100") {
        FieldKind::IsoYearMod100
    } else if same_text(name, "Quarter") {
        FieldKind::Quarter
    } else if same_text(name, "Month") {
        FieldKind::Month
    } else if same_text(name, "Day") {
        FieldKind::Day
    } else if same_text(name, "WeekFromSun") {
        FieldKind::WeekFromSun
    } else if same_text(name, "WeekFromMon") {
        FieldKind::WeekFromMon
    } else if same_text(name, "IsoWeek") {
        FieldKind::IsoWeek
    } else if same_text(name, "NumDaysFromSun") {
        FieldKind::NumDaysFromSun
    } else if same_text(name, "WeekdayFromMon") {
        FieldKind::WeekdayFromMon
    } else if same_text(name, "Ordinal") {
        FieldKind::Ordinal
    } else if same_text(name, "Hour") {
        FieldKind::Hour
    } else if same_text(name, "Hour12") {
        FieldKind::Hour12
    } else if same_text(name, "Minute") {
        FieldKind::Minute
    } else if same_text(name, "Second") {
        FieldKind::Second
    } else if same_text(name, "Nanosecond") {
        FieldKind::Nanosecond
    } else if same_text(name, "Timestamp") {
        FieldKind::Timestamp
    } else {
        FieldKind::InternalNumeric
    }
}

/// Looks a fixed-format field up by the name of its kind.
pub fn fixed_kind(name: &str) -> (kind: FieldKind)
    ensures
        kind == fixed_kind_named(name@),
{
    if same_text(name, "ShortMonthName") {
        FieldKind::ShortMonthName
    } else if same_text(name, "LongMonthName") {
        FieldKind::LongMonthName
    } else if same_text(name, "ShortWeekdayName") {
        FieldKind::ShortWeekdayName
    } else if same_text(name, "LongWeekdayName") {
        FieldKind::LongWeekdayName
    } else if same_text(name, "LowerAmPm") {
        FieldKind::LowerAmPm
    } else if same_text(name, "UpperAmPm") {
        FieldKind::UpperAmPm
    } else if same_text(name, "Nanosecond") {
        FieldKind::FractionAuto
    } else if same_text(name, "Nanosecond3") {
        FieldKind::FractionMillis
    } else if same_text(name, "Nanosecond6") {
        FieldKind::FractionMicros
    } else if same_text(name, "Nanosecond9") {
        FieldKind::FractionNanos
    } else if same_text(name, "TimezoneName") {
        FieldKind::TimezoneName
    } else if same_text(name, "TimezoneOffsetColon") {
        FieldKind::TimezoneOffsetColon
    } else if same_text(name, "TimezoneOffsetDoubleColon") {
        FieldKind::TimezoneOffsetDoubleColon
    } else if same_text(name, "TimezoneOffsetTripleColon") {
        FieldKind::TimezoneOffsetTripleColon
    } else if same_text(name, "TimezoneOffsetColonZ") {
        FieldKind::TimezoneOffsetColonZ
    } else if same_text(name, "TimezoneOffset") {
        FieldKind::TimezoneOffset
    } else if same_text(name, "TimezoneOffsetZ") {
        FieldKind::TimezoneOffsetZ
    } else if same_text(name, "RFC2822") {
        FieldKind::Rfc2822
    } else if same_text(name, "RFC3339") {
        FieldKind::Rfc3339
    } else if same_text(name, "Internal(InternalFixed { val: Nanosecond3NoDot })") {
        FieldKind::DigitsMillis
    } else if same_text(name, "Internal(InternalFixed { val: Nanosecond6NoDot })") {
        FieldKind::DigitsMicros
    } else if same_text(name, "Internal(InternalFixed { val: Nanosecond9NoDot })") {
        FieldKind::DigitsNanos
    } else {
        FieldKind::InternalFixed
    }
}

/// Looks a padding up by its name.
pub fn pad_of(name: &str) -> (pad: Option<Pad>)
    ensures
        pad == pad_named(name@),
{
    if same_text(name, "None") {
        Some(Pad::Unpadded)
    } else if same_text(name, "Zero") {
        Some(Pad::Zero)
    } else if same_text(name, "Space") {
        Some(Pad::Space)
    } else {
        None
    }
}

} // verus!
