//! Rendering of scan times for the control window.
use crate::pathops::opt_view;
use vstd::prelude::*;

verus! {

/// The text chrono formats for the UNIX time `timestamp` (seconds), shown at
/// `offset_seconds` east of UTC with `pattern`; `None` where chrono cannot
/// represent the time.
pub uninterp spec fn chrono_datetime_text(timestamp: int, offset_seconds: int, pattern: Seq<char>) -> Option<Seq<char>>;

/// Timestamps well inside the range chrono documents it can represent
/// ("more than ca. 262,000 years away from common era" is where it stops).
pub open spec fn timestamp_in_range(timestamp: int) -> bool {
    -6_000_000_000_000 <= timestamp <= 6_000_000_000_000
}

/// Local times (seconds since 1970, offset applied) from 1970 up to the end
/// of the year 9999, whose year chrono writes with four digits and no sign.
pub open spec fn four_digit_year_time(local_seconds: int) -> bool {
    0 <= local_seconds < 253402300800
}

/// The pattern the scan time is shown with.
pub open spec fn datetime_pattern() -> Seq<char> {
    "%Y-%m-%d %H:%M:%S"@
}

pub open spec fn is_ascii_digit(c: char) -> bool {
    '0' <= c && c <= '9'
}

/// The shape "YYYY-MM-DD HH:MM:SS": nineteen characters, digits but for
/// the separators.
pub open spec fn datetime_shape(t: Seq<char>) -> bool {
    &&& t.len() == 19
    &&& t[4] == '-' && t[7] == '-' && t[10] == ' ' && t[13] == ':' && t[16] == ':'
    &&& forall|i: int|
        0 <= i < 19 && i != 4 && i != 7 && i != 10 && i != 13 && i != 16 ==> is_ascii_digit(
            #[trigger] t[i],
        )
}

/// The offset, in seconds east of UTC, the scan time is shown at (UTC+8).
pub const DISPLAY_OFFSET_SECONDS: i32 = 28800;

/// `NaiveDateTime::from_timestamp_opt`, `FixedOffset::east_opt`,
/// `DateTime::from_utc` and `DateTime::format` (chrono): the time
/// `timestamp` shown at `offset_seconds` east of UTC with `pattern`. The
/// text is named by `chrono_datetime_text`. As chrono documents: the time
/// exists (`Some`) well within its range; `east_opt` accepts offsets under a
/// day; and with this pattern (`%Y`, `%m`, `%d`, `%H`, `%M`, `%S` are
/// zero-padded to 4, 2, 2, 2, 2, 2 digits, a year from 0 to 9999 without
/// sign) a local time in 1970 through 9999 is written as
/// "YYYY-MM-DD HH:MM:SS". Which digits, that is the calendar, is left to the name.
#[verifier::external_body]
#[allow(deprecated)]
fn chrono_format(timestamp: i64, offset_seconds: i32, pattern: &str) -> (r: Option<String>)
    requires
        -86400 < offset_seconds < 86400,
        pattern@ == datetime_pattern(),
    ensures
        opt_view(r) == chrono_datetime_text(timestamp as int, offset_seconds as int, pattern@),
        timestamp_in_range(timestamp as int) ==> r is Some,
        four_digit_year_time(timestamp + offset_seconds) ==> r is Some && datetime_shape(r.unwrap()@),
{
    let offset = chrono::FixedOffset::east_opt(offset_seconds).unwrap();
    match chrono::NaiveDateTime::from_timestamp_opt(timestamp, 0) {
        Some(nt) => Some(chrono::DateTime::<chrono::FixedOffset>::from_utc(nt, offset).format(pattern).to_string()),
        None => None,
    }
}

/// The scan-time text chrono gives for `timestamp`, if it can represent it.
pub open spec fn display_text(timestamp: int) -> Option<Seq<char>> {
    chrono_datetime_text(timestamp, DISPLAY_OFFSET_SECONDS as int, datetime_pattern())
}

/// The date and time of `timestamp` at UTC+8, as "YYYY-MM-DD HH:MM:SS".
/// Defined where chrono can represent the time.
pub fn format_timestamp_to_datetime(timestamp: i64) -> (r: String)
    requires
        display_text(timestamp as int) is Some,
    ensures
        display_text(timestamp as int) == Some(r@),
        four_digit_year_time(timestamp + DISPLAY_OFFSET_SECONDS) ==> datetime_shape(r@),
{
    let pattern = "%Y-%m-%d %H:%M:%S";
    match chrono_format(timestamp, DISPLAY_OFFSET_SECONDS, pattern) {
        Some(s) => s,
        None => String::new(),
    }
}

/// The date and time of `timestamp` at UTC+8, or `None` where chrono
/// cannot represent the time.
pub fn try_format_timestamp_to_datetime(timestamp: i64) -> (r: Option<String>)
    ensures
        opt_view(r) == display_text(timestamp as int),
        timestamp_in_range(timestamp as int) ==> r is Some,
{
    let pattern = "%Y-%m-%d %H:%M:%S";
    match chrono_format(timestamp, DISPLAY_OFFSET_SECONDS, pattern) {
        Some(_) => Some(format_timestamp_to_datetime(timestamp)),
        None => None,
    }
}

} // verus!
