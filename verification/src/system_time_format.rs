//! The saved form of a point in time: its UTC calendar date, written `%Y-%m-%d`
//! (such as `2024-10-31`), or nothing when there is no date. A date read back stands
//! for midnight UTC of that day. Formatting and parsing are chrono's.

use chrono::format::ParseErrorKind as K;
use chrono::{DateTime, NaiveDate, NaiveTime, Utc};
use vstd::prelude::*;

verus! {

/// The earliest time chrono can turn into a calendar date
/// (-262143-01-01 00:00:00 UTC), in seconds since the Unix epoch.
pub const MIN_UTC_TIMESTAMP: i64 = -8334601228800i64;

/// The latest time chrono can turn into a calendar date
/// (+262142-12-31 23:59:59 UTC), in seconds since the Unix epoch.
pub const MAX_UTC_TIMESTAMP: i64 = 8210266876799i64;

/// Whether chrono can turn `secs` seconds since the Unix epoch into a calendar date.
pub open spec fn in_utc_range(secs: i64) -> bool {
    MIN_UTC_TIMESTAMP <= secs <= MAX_UTC_TIMESTAMP
}

/// The pattern of the saved form of a date.
pub open spec fn save_pattern() -> Seq<char> {
    "%Y-%m-%d"@
}

/// The pattern under which a due date is shown.
pub open spec fn display_pattern() -> Seq<char> {
    "%Y/%m/%d"@
}

/// The date patterns this library formats with.
pub open spec fn is_date_pattern(p: Seq<char>) -> bool {
    p == save_pattern() || p == display_pattern()
}

/// The text that chrono's `DelayedFormat` writes for the UTC date and time `secs`
/// seconds after the Unix epoch, under the strftime pattern `pattern`.
pub uninterp spec fn utc_date_text(secs: i64, pattern: Seq<char>) -> Seq<char>;

/// What `NaiveDate::parse_from_str` reads from `text` under `pattern`: the time
/// stamp of midnight UTC of the date read, or the category of chrono's parse error.
pub uninterp spec fn parsed_date_midnight(text: Seq<char>, pattern: Seq<char>) -> Result<
    i64,
    DateParseError,
>;

/// The first second of the UTC day that holds `secs`: every UTC day has 86400
/// seconds in Unix time.
pub open spec fn day_start(secs: i64) -> int {
    secs - secs % 86400
}

/// A successful read of the date that holds `secs`: the start of its UTC day.
pub open spec fn read_as_day_start(secs: i64) -> Result<i64, DateParseError> {
    Ok(day_start(secs) as i64)
}

/// Whether a character is an ASCII digit.
pub open spec fn is_ascii_digit(c: char) -> bool {
    '0' <= c <= '9'
}

/// Whether every character of a text is an ASCII digit.
pub open spec fn all_digits(s: Seq<char>) -> bool {
    forall|i: int| 0 <= i < s.len() ==> is_ascii_digit(#[trigger] s[i])
}

/// Whether every character of a text is `0`.
pub open spec fn all_zeros(s: Seq<char>) -> bool {
    forall|i: int| 0 <= i < s.len() ==> #[trigger] s[i] == '0'
}

/// Whether a text is a year as `%Y` writes it: four digits for a year from 0 to
/// 9999; `+` and five or more digits without a leading zero for a later year; `-`
/// and the year's digits, zero-padded to four and not all zero, for an earlier one.
pub open spec fn is_canonical_year_text(y: Seq<char>) -> bool {
    ||| y.len() == 4 && all_digits(y)
    ||| y.len() >= 6 && y[0] == '+' && all_digits(y.drop_first()) && y[1] != '0'
    ||| y.len() >= 5 && y[0] == '-' && all_digits(y.drop_first()) && !all_zeros(y.drop_first())
        && (y.len() > 5 ==> y[1] != '0')
}

/// Whether a text has the exact shape that `%Y-%m-%d` writes: a year as `%Y` writes
/// it, a dash, two digits, a dash, two digits.
pub open spec fn is_canonical_date_text(s: Seq<char>) -> bool {
    &&& s.len() >= 10
    &&& is_canonical_year_text(s.subrange(0, s.len() - 6))
    &&& s[s.len() - 6] == '-'
    &&& is_ascii_digit(s[s.len() - 5])
    &&& is_ascii_digit(s[s.len() - 4])
    &&& s[s.len() - 3] == '-'
    &&& is_ascii_digit(s[s.len() - 2])
    &&& is_ascii_digit(s[s.len() - 1])
}

/// Calls `DateTime::<Utc>::from_timestamp(secs, 0)` and writes the result with
/// `format(pattern).to_string()`. Claimed: chrono gives a date exactly for the
/// seconds in `MIN_UTC_TIMESTAMP..=MAX_UTC_TIMESTAMP` (its `from_timestamp` reads the
/// day number into `NaiveDate`, whose years run from -262143 to 262142), and the text
/// is what chrono writes. Claimed too, for the saved pattern: `NaiveDate::parse_from_str`
/// reads the written text back as that day, whose midnight is the start of the UTC
/// day of `secs` (`%Y` writes a year from 0 to 9999 as four zero-padded digits and
/// any other with a sign, zero-padded to four digits; `%m`, `%d` write two digits;
/// the parser reads `%Y` unsigned up to four digits or signed with any number, and
/// `%m`, `%d` up to two). `requires` keeps to patterns chrono can write: with an
/// unknown specifier `to_string` panics.
#[verifier::external_body]
pub(crate) fn format_utc(secs: i64, pattern: &str) -> (text: Option<String>)
    requires
        is_date_pattern(pattern@),
    ensures
        text is Some <==> in_utc_range(secs),
        text matches Some(t) ==> t@ == utc_date_text(secs, pattern@),
        text matches Some(t) ==> (pattern@ == save_pattern() ==> parsed_date_midnight(
            t@,
            pattern@,
        ) == read_as_day_start(secs)),
{
    match DateTime::<Utc>::from_timestamp(secs, 0) {
        Some(dt) => Some(dt.format(pattern).to_string()),
        None => None,
    }
}

/// Calls `NaiveDate::parse_from_str(text, pattern)`; turns a parsed date into the
/// time stamp of its midnight UTC (`and_time(NaiveTime::MIN).and_utc().timestamp()`)
/// and a parse error into its category (`ParseError::kind`, one variant for one;
/// chrono never builds its hidden `__Nonexhaustive` kind, which would read as
/// `BadFormat`). Claimed: the outcome is the one named by `parsed_date_midnight`; a
/// date read lies in chrono's range, so its midnight is in `in_utc_range`; and for
/// the saved pattern, a text of the exact shape `is_canonical_date_text` that parses
/// is written back unchanged by `%Y-%m-%d` (a year read from four unsigned digits is
/// written with four zero-padded digits, a signed year of that shape is written with
/// the same sign and digits, and month and day with two digits each).
#[verifier::external_body]
fn parse_date_midnight(text: &str, pattern: &str) -> (res: Result<i64, DateParseError>)
    ensures
        res == parsed_date_midnight(text@, pattern@),
        res matches Ok(t) ==> in_utc_range(t),
        res matches Ok(t) ==> (pattern@ == save_pattern() && is_canonical_date_text(text@)
            ==> utc_date_text(t, pattern@) == text@),
{
    match NaiveDate::parse_from_str(text, pattern) {
        Ok(date) => Ok(date.and_time(NaiveTime::MIN).and_utc().timestamp()),
        Err(e) => Err(match e.kind() {
            K::OutOfRange => DateParseError::OutOfRange,
            K::Impossible => DateParseError::Impossible,
            K::NotEnough => DateParseError::NotEnough,
            K::Invalid => DateParseError::Invalid,
            K::TooShort => DateParseError::TooShort,
            K::TooLong => DateParseError::TooLong,
            _ => DateParseError::BadFormat,
        }),
    }
}

/// Why a saved date could not be read: the categories of chrono's `ParseErrorKind`.
#[derive(Debug, Clone, Copy, PartialEq, Eq, Structural)]
pub enum DateParseError {
    OutOfRange,
    Impossible,
    NotEnough,
    Invalid,
    TooShort,
    TooLong,
    BadFormat,
}

/// The message chrono shows for each category of parse error.
pub open spec fn parse_error_message(e: DateParseError) -> Seq<char> {
    match e {
        DateParseError::OutOfRange => "input is out of range"@,
        DateParseError::Impossible => "no possible date and time matching input"@,
        DateParseError::NotEnough => "input is not enough for unique date and time"@,
        DateParseError::Invalid => "input contains invalid characters"@,
        DateParseError::TooShort => "premature end of input"@,
        DateParseError::TooLong => "trailing input"@,
        DateParseError::BadFormat => "bad or unsupported format string"@,
    }
}

impl DateParseError {
    /// The message for this error, as chrono words it.
    pub fn message(&self) -> (m: String)
        ensures
            m@ == parse_error_message(*self),
    {
        match self {
            DateParseError::OutOfRange => "input is out of range".to_owned(),
            DateParseError::Impossible => "no possible date and time matching input".to_owned(),
            DateParseError::NotEnough => "input is not enough for unique date and time".to_owned(),
            DateParseError::Invalid => "input contains invalid characters".to_owned(),
            DateParseError::TooShort => "premature end of input".to_owned(),
            DateParseError::TooLong => "trailing input".to_owned(),
            DateParseError::BadFormat => "bad or unsupported format string".to_owned(),
        }
    }
}

/// The characters of an optional text.
pub open spec fn text_view(text: Option<String>) -> Option<Seq<char>> {
    match text {
        Some(s) => Some(s@),
        None => None,
    }
}

/// The saved form of an optional point in time.
pub open spec fn saved_form(date: Option<i64>) -> Option<Seq<char>> {
    match date {
        Some(t) => Some(utc_date_text(t, save_pattern())),
        None => None,
    }
}

/// What reading an optional saved form gives: the value read back, or the category
/// of the parse error.
pub open spec fn read_form(text: Option<Seq<char>>) -> Result<Option<i64>, DateParseError> {
    match text {
        Some(s) => match parsed_date_midnight(s, save_pattern()) {
            Ok(t) => Ok(Some(t)),
            Err(e) => Err(e),
        },
        None => Ok(None),
    }
}

/// A saved form read back as the start of the UTC day that holds `secs`.
pub open spec fn read_back_as_day_start(secs: i64) -> Result<Option<i64>, DateParseError> {
    Ok(Some(day_start(secs) as i64))
}

/// Writes an optional point in time in its saved form: its UTC date as `%Y-%m-%d`,
/// or nothing. The saved form reads back as the start of the UTC day of the time
/// written.
pub fn serialize(date: &Option<i64>) -> (text: Option<String>)
    requires
        *date matches Some(t) ==> in_utc_range(t),
    ensures
        text is Some <==> date is Some,
        text matches Some(s) ==> saved_form(*date) == Some(s@),
        *date matches Some(t) ==> (text matches Some(s) && read_form(Some(s@))
            == read_back_as_day_start(t)),
{
    match date {
        Some(t) => format_utc(*t, "%Y-%m-%d"),
        None => None,
    }
}

/// Reads an optional saved date (`%Y-%m-%d`) back as midnight UTC of that day; no
/// text reads as no date, and text that is not such a date is an error of chrono's
/// category. A date read can be written again, and a text of the exact shape that
/// `%Y-%m-%d` writes is written back unchanged.
pub fn deserialize(text: Option<String>) -> (res: Result<Option<i64>, DateParseError>)
    ensures
        res == read_form(text_view(text)),
        res matches Ok(Some(t)) ==> in_utc_range(t),
        res matches Ok(Some(t)) ==> (text matches Some(s) ==> (is_canonical_date_text(s@)
            ==> saved_form(Some(t)) == Some(s@))),
{
    match text {
        Some(date_str) => match parse_date_midnight(date_str.as_str(), "%Y-%m-%d") {
            Ok(t) => Ok(Some(t)),
            Err(e) => Err(e),
        },
        None => Ok(None),
    }
}

/// The start of a time's UTC day is a whole number of days from the epoch, at most
/// one day before the time and never after it.
pub proof fn lemma_day_start_is_the_days_midnight(secs: i64)
    ensures
        day_start(secs) <= secs < day_start(secs) + 86400,
        day_start(secs) % 86400 == 0,
{
}

/// A date is saved as its UTC date under `%Y-%m-%d`, and a saved text reads back as
/// what chrono parses from it under the same pattern.
pub proof fn lemma_saved_form_uses_the_dashed_pattern(t: i64, s: Seq<char>)
    ensures
        saved_form(Some(t)) == Some(utc_date_text(t, "%Y-%m-%d"@)),
        parsed_date_midnight(s, "%Y-%m-%d"@) matches Ok(v) ==> read_form(Some(s)) == Ok::<
            Option<i64>,
            DateParseError,
        >(Some(v)),
        parsed_date_midnight(s, "%Y-%m-%d"@) matches Err(e) ==> read_form(Some(s)) == Err::<
            Option<i64>,
            DateParseError,
        >(e),
{
}

/// The messages shown for the categories of parse errors, as chrono words them.
pub proof fn lemma_parse_error_messages()
    ensures
        parse_error_message(DateParseError::OutOfRange) == "input is out of range"@,
        parse_error_message(DateParseError::Impossible) == "no possible date and time matching input"@,
        parse_error_message(DateParseError::NotEnough) == "input is not enough for unique date and time"@,
        parse_error_message(DateParseError::Invalid) == "input contains invalid characters"@,
        parse_error_message(DateParseError::TooShort) == "premature end of input"@,
        parse_error_message(DateParseError::TooLong) == "trailing input"@,
        parse_error_message(DateParseError::BadFormat) == "bad or unsupported format string"@,
{
}

/// An absent date is saved as nothing, and nothing reads back as an absent date.
pub proof fn lemma_absent_date_round_trip()
    ensures
        read_form(saved_form(None)) == Ok::<Option<i64>, DateParseError>(None),
{
}

} // verus!
