//! Civil date-times as plain fields, and the calls into `chrono` that
//! tokenize a format string, format one calendar field and read a timestamp.

use chrono::format::{Item, StrftimeItems};
use chrono::{Datelike, NaiveDate, NaiveDateTime, Timelike};
use std::fmt::Write;
use vstd::prelude::*;

verus! {

/// A date and a time of day without a time zone, as plain fields.
#[derive(Clone, Copy, Debug, PartialEq, Eq, Structural)]
pub struct CivilDateTime {
    pub year: i32,
    pub month: u32,
    pub day: u32,
    pub hour: u32,
    pub minute: u32,
    pub second: u32,
    pub nanosecond: u32,
}

/// One item of a tokenized format string. Calendar fields are carried by the
/// names that `chrono` gives their kinds.
#[derive(Clone, Debug, PartialEq, Eq)]
pub enum RawToken {
    /// Text that is printed as it stands.
    Text(String),
    /// A numeric field: the name of its kind and the name of its padding.
    Numeric(String, String),
    /// A field with a format of its own: the name of its kind.
    Fixed(String),
    /// A specifier that `chrono` does not recognize.
    Error,
}

/// The mathematical value of a `RawToken`.
pub enum RawTokenView {
    Text(Seq<char>),
    Numeric(Seq<char>, Seq<char>),
    Fixed(Seq<char>),
    Error,
}

impl View for RawToken {
    type V = RawTokenView;

    open spec fn view(&self) -> RawTokenView {
        match self {
            RawToken::Text(text) => RawTokenView::Text(text@),
            RawToken::Numeric(kind, pad) => RawTokenView::Numeric(kind@, pad@),
            RawToken::Fixed(kind) => RawTokenView::Fixed(kind@),
            RawToken::Error => RawTokenView::Error,
        }
    }
}

/// The values of a sequence of tokens.
pub open spec fn token_views(tokens: Seq<RawToken>) -> Seq<RawTokenView> {
    tokens.map_values(|token: RawToken| token@)
}

/// The items that `chrono::format::StrftimeItems::new` yields for a format
/// string, each numeric and fixed kind written as its `Debug` name.
pub uninterp spec fn strftime_items(text: Seq<char>) -> Seq<RawTokenView>;

/// What `chrono::NaiveDateTime::format` writes for a date-time and a format
/// string; `None` where the fields are no date-time or the writing fails.
pub uninterp spec fn formatted_civil(at: CivilDateTime, format: Seq<char>) -> Option<Seq<char>>;

/// What `chrono::DateTime::<Utc>::format` writes for a date-time taken as UTC
/// and a format string; `None` where the fields are no date-time or the
/// writing fails.
pub uninterp spec fn formatted_utc(at: CivilDateTime, format: Seq<char>) -> Option<Seq<char>>;

/// What `chrono::NaiveDateTime::parse_from_str` reads from a text under a
/// format string; `None` where it reports an error.
pub uninterp spec fn parsed_civil(text: Seq<char>, format: Seq<char>) -> Option<CivilDateTime>;

/// Iterates `chrono::format::StrftimeItems::new(text)` to its end. The result
/// depends on `text` alone: the iterator is built without a locale. Literal
/// and whitespace items both become `Text`.
#[verifier::external_body]
pub(crate) fn strftime_tokens(text: &str) -> (tokens: Vec<RawToken>)
    ensures
        token_views(tokens@) == strftime_items(text@),
{
    let mut tokens = Vec::new();
    for item in StrftimeItems::new(text) {
        tokens.push(match item {
            Item::Literal(s) => RawToken::Text(s.to_string()),
            Item::OwnedLiteral(s) => RawToken::Text(s.into_string()),
            Item::Space(s) => RawToken::Text(s.to_string()),
            Item::OwnedSpace(s) => RawToken::Text(s.into_string()),
            Item::Numeric(kind, pad) => RawToken::Numeric(format!("{:?}", kind), format!("{:?}", pad)),
            Item::Fixed(kind) => RawToken::Fixed(format!("{:?}", kind)),
            Item::Error => RawToken::Error,
        });
    }
    tokens
}

/// Calls `chrono::NaiveDateTime::format` on the date-time that the fields of
/// `at` make, and collects what it writes. `None` where `chrono` accepts the
/// fields as no date-time, or where the writing reports an error (an unknown
/// specifier, or a field that a civil time does not have).
#[verifier::external_body]
pub(crate) fn format_civil(at: &CivilDateTime, format: &str) -> (out: Option<String>)
    ensures
        out.is_some() == formatted_civil(*at, format@).is_some(),
        out matches Some(text) ==> formatted_civil(*at, format@) == Some(text@),
{
    let date = NaiveDate::from_ymd_opt(at.year, at.month, at.day)?;
    let civil = date.and_hms_nano_opt(at.hour, at.minute, at.second, at.nanosecond)?;
    let mut out = String::new();
    write!(out, "{}", civil.format(format)).ok()?;
    Some(out)
}

/// Calls `chrono::DateTime::<Utc>::format` on the instant that the fields of
/// `at` make when read as UTC, and collects what it writes. `None` where
/// `chrono` accepts the fields as no date-time, or where the writing reports
/// an error.
#[verifier::external_body]
pub(crate) fn format_utc(at: &CivilDateTime, format: &str) -> (out: Option<String>)
    ensures
        out.is_some() == formatted_utc(*at, format@).is_some(),
        out matches Some(text) ==> formatted_utc(*at, format@) == Some(text@),
{
    let date = NaiveDate::from_ymd_opt(at.year, at.month, at.day)?;
    let civil = date.and_hms_nano_opt(at.hour, at.minute, at.second, at.nanosecond)?;
    let mut out = String::new();
    write!(out, "{}", civil.and_utc().format(format)).ok()?;
    Some(out)
}

/// Calls `chrono::NaiveDateTime::parse_from_str` and hands out the fields of
/// the date-time it read; `None` where it reports an error.
#[verifier::external_body]
pub(crate) fn parse_civil(text: &str, format: &str) -> (out: Option<CivilDateTime>)
    ensures
        out == parsed_civil(text@, format@),
{
    let at = NaiveDateTime::parse_from_str(text, format).ok()?;
    Some(CivilDateTime {
        year: at.year(),
        month: at.month(),
        day: at.day(),
        hour: at.hour(),
        minute: at.minute(),
        second: at.second(),
        nanosecond: at.nanosecond(),
    })
}

} // verus!
