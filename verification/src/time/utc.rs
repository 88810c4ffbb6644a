//! The calendar in UTC, as chrono computes it.
//!
//! The functions of this file call chrono; Verus takes their contracts on
//! trust. Each result that is a function of the arguments alone has a name
//! here, a spec function without a body, and the rest of the crate states
//! its contracts over those names.

use vstd::prelude::*;

verus! {

/// The milliseconds from the epoch to the given date and time in UTC, where
/// chrono has such a date and time.
pub uninterp spec fn utc_millis(
    year: int,
    month: int,
    day: int,
    hour: int,
    minute: int,
    second: int,
    millisecond: int,
) -> Option<int>;

/// Year, month, day, hour, minute and second in UTC of the instant that many
/// milliseconds from the epoch, where chrono has such an instant.
pub uninterp spec fn utc_fields(millis: int) -> Option<(int, int, int, int, int, int)>;

/// The ISO number of the weekday of the given date, from Monday as 1 to
/// Sunday as 7, where chrono has such a date.
pub uninterp spec fn iso_weekday(year: int, month: int, day: int) -> Option<int>;

/// The instant that many milliseconds from the epoch, written in UTC as
/// year, month and day between slashes, a space, and hour, minute and second
/// between colons, where chrono has such an instant.
pub uninterp spec fn utc_text(millis: int) -> Option<Seq<char>>;

/// The milliseconds from the epoch to the instant that the text denotes
/// when read by the pattern, where chrono can read it so.
pub uninterp spec fn parsed_millis(text: Seq<char>, pattern: Seq<char>) -> Option<int>;

/// chrono's reason for not reading a text as a date and time.
#[verifier::external_type_specification]
#[verifier::external_body]
pub struct ExParseError(chrono::ParseError);

/// Calls chrono's `NaiveDate::from_ymd_opt`, `NaiveDate::and_hms_milli_opt`,
/// `NaiveDateTime::and_utc` and `DateTime::timestamp_millis` in turn.
///
/// The result is `None` where one of the first two is, which is where the
/// date or the time of day does not exist for chrono. The contract only
/// names the result.
#[verifier::external_body]
pub(crate) fn utc_millis_of(
    year: i32,
    month: u32,
    day: u32,
    hour: u32,
    minute: u32,
    second: u32,
    millisecond: u32,
) -> (r: Option<i64>)
    ensures
        utc_millis(
            year as int,
            month as int,
            day as int,
            hour as int,
            minute as int,
            second as int,
            millisecond as int,
        ) == match r {
            Some(millis) => Some(millis as int),
            None => None,
        },
{
    let date = chrono::NaiveDate::from_ymd_opt(year, month, day)?;
    let date_time = date.and_hms_milli_opt(hour, minute, second, millisecond)?;
    Some(date_time.and_utc().timestamp_millis())
}

/// Calls chrono's `DateTime::from_timestamp_millis` and reads the result
/// with `Datelike::year`, `month`, `day` and `Timelike::hour`, `minute`,
/// `second`.
///
/// The result is `None` where chrono has no such instant. Besides naming the
/// result, the contract states the ranges that chrono documents for the
/// fields: month 1 to 12, day 1 to 31, hour 0 to 23, minute and second 0 to
/// 59.
#[verifier::external_body]
pub(crate) fn utc_fields_of(millis: i64) -> (r: Option<(i32, u32, u32, u32, u32, u32)>)
    ensures
        utc_fields(millis as int) == match r {
            Some(f) => Some((f.0 as int, f.1 as int, f.2 as int, f.3 as int, f.4 as int, f.5 as int)),
            None => None,
        },
        r matches Some(f) ==> 1 <= f.1 <= 12 && 1 <= f.2 <= 31 && f.3 <= 23 && f.4 <= 59 && f.5
            <= 59,
{
    let t = chrono::DateTime::from_timestamp_millis(millis)?;
    Some(
        (
            chrono::Datelike::year(&t),
            chrono::Datelike::month(&t),
            chrono::Datelike::day(&t),
            chrono::Timelike::hour(&t),
            chrono::Timelike::minute(&t),
            chrono::Timelike::second(&t),
        ),
    )
}

/// Calls chrono's `NaiveDate::from_ymd_opt`, `Datelike::weekday` and
/// `Weekday::number_from_monday`.
///
/// The result is `None` where the date does not exist for chrono. Besides
/// naming the result, the contract states the range that chrono documents:
/// 1 for Monday to 7 for Sunday.
#[verifier::external_body]
pub(crate) fn iso_weekday_of(year: i32, month: u32, day: u32) -> (r: Option<u32>)
    ensures
        iso_weekday(year as int, month as int, day as int) == match r {
            Some(n) => Some(n as int),
            None => None,
        },
        r matches Some(n) ==> 1 <= n <= 7,
{
    let date = chrono::NaiveDate::from_ymd_opt(year, month, day)?;
    Some(chrono::Datelike::weekday(&date).number_from_monday())
}

/// Calls chrono's `DateTime::from_timestamp_millis`, and `DateTime::format`
/// with the pattern `%Y/%m/%d %H:%M:%S`.
///
/// The result is `None` where chrono has no such instant. The contract only
/// names the result.
#[verifier::external_body]
pub(crate) fn utc_text_of(millis: i64) -> (r: Option<String>)
    ensures
        utc_text(millis as int) == match r {
            Some(text) => Some(text@),
            None => None,
        },
{
    let t = chrono::DateTime::from_timestamp_millis(millis)?;
    Some(t.format("%Y/%m/%d %H:%M:%S").to_string())
}

/// Calls chrono's `DateTime::parse_from_str`, then `DateTime::with_timezone`
/// for UTC and `DateTime::timestamp_millis`.
///
/// The result is chrono's error where chrono cannot read the text by the
/// pattern. The contract only names the result.
#[verifier::external_body]
pub(crate) fn parse_millis(text: &str, pattern: &str) -> (r: Result<i64, chrono::ParseError>)
    ensures
        parsed_millis(text@, pattern@) == match r {
            Ok(millis) => Some(millis as int),
            Err(_) => None,
        },
{
    let t = chrono::DateTime::parse_from_str(text, pattern)?;
    Ok(t.with_timezone(&chrono::Utc).timestamp_millis())
}

} // verus!
