//! Timestamps: microseconds since the Unix epoch, shown as a calendar date and
//! time of day at a given offset from UTC.

use vstd::prelude::*;

verus! {

/// The text `YYYY-MM-DD HH:MM:SS` that `chrono` writes for the instant `secs`
/// seconds and `nanos` nanoseconds after the Unix epoch, at `utc_offset` seconds
/// east of UTC; `None` where `chrono` has no such instant or no such offset.
pub uninterp spec fn chrono_datetime_text(secs: int, nanos: int, utc_offset: int) -> Option<
    Seq<char>,
>;

/// The view of a string that may be absent.
pub open spec fn optional_text(s: Option<String>) -> Option<Seq<char>> {
    match s {
        Some(s) => Some(s@),
        None => None,
    }
}

/// The date and time of day of a timestamp in microseconds, to the second, at
/// `utc_offset` seconds east of UTC. The part of the timestamp below one second
/// does not show in the text: the text is that of the whole seconds, rounded
/// down.
pub open spec fn datetime_text(unixtime_us: i64, utc_offset: i32) -> Option<Seq<char>> {
    chrono_datetime_text(unixtime_us as int / 1_000_000, 0, utc_offset as int)
}

/// Timestamps within the same second are written alike.
pub proof fn lemma_text_ignores_fraction(first_us: i64, second_us: i64, utc_offset: i32)
    requires
        first_us as int / 1_000_000 == second_us as int / 1_000_000,
    ensures
        datetime_text(first_us, utc_offset) == datetime_text(second_us, utc_offset),
{
}

/// `chrono::DateTime::from_timestamp`, moved to the zone of
/// `chrono::FixedOffset::east_opt` and written with `DateTime::format` as
/// `%Y-%m-%d %H:%M:%S`: the text that `chrono` gives for these three numbers, or
/// `None` where it refuses the instant or the offset. `east_opt` refuses an
/// offset of a day or more to either side.
#[verifier::external_body]
fn chrono_format(secs: i64, nanos: u32, utc_offset: i32) -> (r: Option<String>)
    requires
        nanos < 1_000_000_000,
    ensures
        optional_text(r) == chrono_datetime_text(secs as int, nanos as int, utc_offset as int),
        utc_offset <= -86_400 || utc_offset >= 86_400 ==> r is None,
{
    let zone = chrono::FixedOffset::east_opt(utc_offset)?;
    let instant = chrono::DateTime::from_timestamp(secs, nanos)?;
    Some(instant.with_timezone(&zone).format("%Y-%m-%d %H:%M:%S").to_string())
}

/// Whole seconds of a timestamp in microseconds, rounded down.
pub fn whole_seconds(unixtime_us: i64) -> (secs: i64)
    ensures
        secs == unixtime_us as int / 1_000_000,
{
    let q = unixtime_us / 1_000_000;
    if unixtime_us % 1_000_000 < 0 {
        q - 1
    } else {
        q
    }
}

/// Writes a timestamp in microseconds since the Unix epoch as `YYYY-MM-DD
/// HH:MM:SS` at `utc_offset` seconds east of UTC. There is no text for an offset
/// of a day or more to either side.
pub fn unixtime_to_datetime(unixtime_us: i64, utc_offset: i32) -> (r: Option<String>)
    ensures
        optional_text(r) == datetime_text(unixtime_us, utc_offset),
        utc_offset <= -86_400 || utc_offset >= 86_400 ==> r is None,
{
    chrono_format(whole_seconds(unixtime_us), 0, utc_offset)
}

} // verus!
