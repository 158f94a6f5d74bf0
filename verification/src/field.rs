//! Calendar fields of an output template: their kinds, their padding and
//! the canonical spelling of each in a format string.

use vstd::prelude::*;

verus! {

/// How a numeric field is filled up to its width.
#[derive(Clone, Copy, Debug, PartialEq, Eq, Structural)]
pub enum Pad {
    /// No filling.
    Unpadded,
    /// Filled with `0`.
    Zero,
    /// Filled with spaces.
    Space,
}

/// The calendar fields that a template can hold.
#[derive(Clone, Copy, Debug, PartialEq, Eq, Structural)]
pub enum FieldKind {
    Year,
    YearDiv100,
    YearMod100,
    IsoYear,
    IsoYearDiv100,
    IsoYearMod100,
    Quarter,
    Month,
    Day,
    WeekFromSun,
    WeekFromMon,
    IsoWeek,
    NumDaysFromSun,
    WeekdayFromMon,
    Ordinal,
    Hour,
    Hour12,
    Minute,
    Second,
    Nanosecond,
    Timestamp,
    /// A numeric field that only the calendar library itself uses.
    InternalNumeric,
    ShortMonthName,
    LongMonthName,
    ShortWeekdayName,
    LongWeekdayName,
    LowerAmPm,
    UpperAmPm,
    /// Fraction of a second after a dot, as many digits as are needed.
    FractionAuto,
    /// Fraction of a second after a dot, three digits.
    FractionMillis,
    /// Fraction of a second after a dot, six digits.
    FractionMicros,
    /// Fraction of a second after a dot, nine digits.
    FractionNanos,
    /// Fraction of a second without a dot, three digits.
    DigitsMillis,
    /// Fraction of a second without a dot, six digits.
    DigitsMicros,
    /// Fraction of a second without a dot, nine digits.
    DigitsNanos,
    TimezoneName,
    /// Offset from UTC as `+09:00`.
    TimezoneOffsetColon,
    /// Offset from UTC as `+09:00:00`.
    TimezoneOffsetDoubleColon,
    /// Offset from UTC as `+09`.
    TimezoneOffsetTripleColon,
    /// Offset from UTC as `+0900`.
    TimezoneOffset,
    /// Offset from UTC as `+09:00`, or `Z` for UTC itself.
    TimezoneOffsetColonZ,
    /// Offset from UTC as `+0900`, or `Z` for UTC itself.
    TimezoneOffsetZ,
    Rfc2822,
    Rfc3339,
    /// A fixed-format field that only the calendar library itself uses.
    InternalFixed,
}

/// The character that selects a padding in a format string.
pub open spec fn pad_char(pad: Pad) -> char {
    match pad {
        Pad::Unpadded => '-',
        Pad::Zero => '0',
        Pad::Space => '_',
    }
}

/// The letter of a numeric field in a format string, for the kinds that are
/// numeric and have one.
pub open spec fn numeric_letter(kind: FieldKind) -> Option<char> {
    match kind {
        FieldKind::Year => Some('Y'),
        FieldKind::YearDiv100 => Some('C'),
        FieldKind::YearMod100 => Some('y'),
        FieldKind::IsoYear => Some('G'),
        FieldKind::IsoYearMod100 => Some('g'),
        FieldKind::Quarter => Some('q'),
        FieldKind::Month => Some('m'),
        FieldKind::Day => Some('d'),
        FieldKind::WeekFromSun => Some('U'),
        FieldKind::WeekFromMon => Some('W'),
        FieldKind::IsoWeek => Some('V'),
        FieldKind::NumDaysFromSun => Some('w'),
        FieldKind::WeekdayFromMon => Some('u'),
        FieldKind::Ordinal => Some('j'),
        FieldKind::Hour => Some('H'),
        FieldKind::Hour12 => Some('I'),
        FieldKind::Minute => Some('M'),
        FieldKind::Second => Some('S'),
        FieldKind::Nanosecond => Some('f'),
        FieldKind::Timestamp => Some('s'),
        _ => None,
    }
}

/// What follows `%` in the spelling of a fixed-format field, for the kinds
/// that are of fixed format and have a spelling.
pub open spec fn fixed_spelling(kind: FieldKind) -> Option<Seq<char>> {
    match kind {
        FieldKind::ShortMonthName => Some(seq!['b']),
        FieldKind::LongMonthName => Some(seq!['B']),
        FieldKind::ShortWeekdayName => Some(seq!['a']),
        FieldKind::LongWeekdayName => Some(seq!['A']),
        FieldKind::LowerAmPm => Some(seq!['P']),
        FieldKind::UpperAmPm => Some(seq!['p']),
        FieldKind::FractionAuto => Some(seq!['.', 'f']),
        FieldKind::FractionMillis => Some(seq!['.', '3', 'f']),
        FieldKind::FractionMicros => Some(seq!['.', '6', 'f']),
        FieldKind::FractionNanos => Some(seq!['.', '9', 'f']),
        FieldKind::DigitsMillis => Some(seq!['3', 'f']),
        FieldKind::DigitsMicros => Some(seq!['6', 'f']),
        FieldKind::DigitsNanos => Some(seq!['9', 'f']),
        FieldKind::TimezoneName => Some(seq!['Z']),
        FieldKind::TimezoneOffsetColon => Some(seq![':', 'z']),
        FieldKind::TimezoneOffsetDoubleColon => Some(seq![':', ':', 'z']),
        FieldKind::TimezoneOffsetTripleColon => Some(seq![':', ':', ':', 'z']),
        FieldKind::TimezoneOffset => Some(seq!['z']),
        FieldKind::Rfc3339 => Some(seq!['+']),
        _ => None,
    }
}

/// The canonical spelling of a calendar field: `%`, then for a numeric field
/// the padding character and the field's letter, for a fixed-format field its
/// own spelling. `None` for a field that no format string spells.
pub open spec fn field_text(kind: FieldKind, pad: Pad) -> Option<Seq<char>> {
    match numeric_letter(kind) {
        Some(letter) => Some(seq!['%', pad_char(pad), letter]),
        None => match fixed_spelling(kind) {
            Some(tail) => Some(seq!['%'] + tail),
            None => None,
        },
    }
}

/// Whether a template may hold the field: it has a spelling.
pub open spec fn field_accepted(kind: FieldKind) -> bool {
    numeric_letter(kind).is_some() || fixed_spelling(kind).is_some()
}

/// The fields that templates do not take are the internal ones, the two
/// offsets from UTC that print `Z`, and the two that no format string
/// spells.
pub proof fn fields_not_taken(kind: FieldKind)
    ensures
        !field_accepted(kind) <==> kind == FieldKind::InternalNumeric || kind
            == FieldKind::InternalFixed || kind == FieldKind::TimezoneOffsetZ || kind
            == FieldKind::TimezoneOffsetColonZ || kind == FieldKind::IsoYearDiv100 || kind
            == FieldKind::Rfc2822,
{
}

/// The fields that a template may hold are those that can be written back:
/// a field is accepted exactly where it has a canonical spelling, whatever
/// its padding.
pub proof fn spelled_fields_are_read(kind: FieldKind, pad: Pad)
    ensures
        field_text(kind, pad).is_some() <==> field_accepted(kind),
{
}

impl Pad {
    /// The character that selects this padding in a format string.
    pub fn letter(&self) -> (c: char)
        ensures
            c == pad_char(*self),
    {
        match self {
            Pad::Unpadded => '-',
            Pad::Zero => '0',
            Pad::Space => '_',
        }
    }
}

impl FieldKind {
    /// The letter of this field in a format string, if it is numeric.
    pub fn numeric_letter(&self) -> (letter: Option<char>)
        ensures
            letter == numeric_letter(*self),
    {
        match self {
            FieldKind::Year => Some('Y'),
            FieldKind::YearDiv100 => Some('C'),
            FieldKind::YearMod100 => Some('y'),
            FieldKind::IsoYear => Some('G'),
            FieldKind::IsoYearMod100 => Some('g'),
            FieldKind::Quarter => Some('q'),
            FieldKind::Month => Some('m'),
            FieldKind::Day => Some('d'),
            FieldKind::WeekFromSun => Some('U'),
            FieldKind::WeekFromMon => Some('W'),
            FieldKind::IsoWeek => Some('V'),
            FieldKind::NumDaysFromSun => Some('w'),
            FieldKind::WeekdayFromMon => Some('u'),
            FieldKind::Ordinal => Some('j'),
            FieldKind::Hour => Some('H'),
            FieldKind::Hour12 => Some('I'),
            FieldKind::Minute => Some('M'),
            FieldKind::Second => Some('S'),
            FieldKind::Nanosecond => Some('f'),
            FieldKind::Timestamp => Some('s'),
            _ => None,
        }
    }

    /// Whether a template may hold this field.
    pub fn is_accepted(&self) -> (accepted: bool)
        ensures
            accepted == field_accepted(*self),
    {
        match self {
            FieldKind::IsoYearDiv100
            | FieldKind::InternalNumeric
            | FieldKind::TimezoneOffsetColonZ
            | FieldKind::TimezoneOffsetZ
            | FieldKind::Rfc2822
            | FieldKind::InternalFixed => false,
            _ => true,
        }
    }
}

/// The spelling without a dot of the three fixed-width fractions of a second:
/// `3f`, `6f` and `9f`.
pub fn format_internal_format(kind: FieldKind) -> (tail: Option<Vec<char>>)
    ensures
        match tail {
            Some(chars) => (kind == FieldKind::DigitsMillis || kind == FieldKind::DigitsMicros
                || kind == FieldKind::DigitsNanos) && fixed_spelling(kind) == Some(chars@),
            None => kind != FieldKind::DigitsMillis && kind != FieldKind::DigitsMicros && kind
                != FieldKind::DigitsNanos,
        },
{
    match kind {
        FieldKind::DigitsMillis => Some(vec!['3', 'f']),
        FieldKind::DigitsMicros => Some(vec!['6', 'f']),
        FieldKind::DigitsNanos => Some(vec!['9', 'f']),
        _ => None,
    }
}

/// Appends the canonical spelling of a field to `out`; reports whether the
/// field has one, and leaves `out` as it was where it has none.
pub fn push_field_text(out: &mut Vec<char>, kind: FieldKind, pad: Pad) -> (written: bool)
    ensures
        written == field_text(kind, pad).is_some(),
        written ==> final(out)@ == old(out)@ + field_text(kind, pad).unwrap(),
        !written ==> final(out)@ == old(out)@,
{
    if let Some(letter) = kind.numeric_letter() {
        out.push('%');
        out.push(pad.letter());
        out.push(letter);
        assert(out@ == old(out)@ + seq!['%', pad_char(pad), letter]);
        return true;
    }
    if let Some(tail) = format_internal_format(kind) {
        out.push('%');
        out.push(tail[0]);
        out.push(tail[1]);
        assert(out@ == old(out)@ + (seq!['%'] + tail@));
        return true;
    }
    let ghost before = out@;
    match kind {
        FieldKind::ShortMonthName => { out.push('%'); out.push('b'); },
        FieldKind::LongMonthName => { out.push('%'); out.push('B'); },
        FieldKind::ShortWeekdayName => { out.push('%'); out.push('a'); },
        FieldKind::LongWeekdayName => { out.push('%'); out.push('A'); },
        FieldKind::LowerAmPm => { out.push('%'); out.push('P'); },
        FieldKind::UpperAmPm => { out.push('%'); out.push('p'); },
        FieldKind::FractionAuto => { out.push('%'); out.push('.'); out.push('f'); },
        FieldKind::FractionMillis => { out.push('%'); out.push('.'); out.push('3'); out.push('f'); },
        FieldKind::FractionMicros => { out.push('%'); out.push('.'); out.push('6'); out.push('f'); },
        FieldKind::FractionNanos => { out.push('%'); out.push('.'); out.push('9'); out.push('f'); },
        FieldKind::TimezoneName => { out.push('%'); out.push('Z'); },
        FieldKind::TimezoneOffsetColon => { out.push('%'); out.push(':'); out.push('z'); },
        FieldKind::TimezoneOffsetDoubleColon => {
            out.push('%'); out.push(':'); out.push(':'); out.push('z');
        },
        FieldKind::TimezoneOffsetTripleColon => {
            out.push('%'); out.push(':'); out.push(':'); out.push(':'); out.push('z');
        },
        FieldKind::TimezoneOffset => { out.push('%'); out.push('z'); },
        FieldKind::Rfc3339 => { out.push('%'); out.push('+'); },
        _ => { return false; },
    }
    assert(out@ == before + (seq!['%'] + fixed_spelling(kind).unwrap()));
    true
}

} // verus!
