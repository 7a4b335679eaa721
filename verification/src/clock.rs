//! Wall-clock text for an instant.
//!
//! An instant is a count of seconds since the start of 1970 in UTC. It is
//! shown as the time of day, `HH:MM` on the 24-hour clock, in a zone that
//! runs a fixed number of seconds ahead of UTC. The calendar work is done by
//! the `chrono` crate; this module states what it relies on and decides
//! which instants can be shown.

use chrono::{DateTime, FixedOffset, Local, TimeZone};
use vstd::prelude::*;

use crate::decimal::digit_char;

verus! {

/// The first instant that `chrono` can place on its calendar: the start of
/// the year -262143 in UTC.
pub const EARLIEST_INSTANT: i64 = -8_334_601_228_800;

/// The last instant that `chrono` can place on its calendar: the final second
/// of the year 262142 in UTC.
pub const LATEST_INSTANT: i64 = 8_210_266_876_799;

/// The number of seconds in a day.
pub const DAY: i64 = 86_400;

/// Whether `timestamp` is an instant of the calendar.
pub open spec fn is_calendar_instant(timestamp: int) -> bool {
    EARLIEST_INSTANT <= timestamp <= LATEST_INSTANT
}

/// Whether a zone may run `offset` seconds ahead of UTC: less than a day
/// either way.
pub open spec fn is_zone_offset(offset: int) -> bool {
    -DAY < offset < DAY
}

/// Whether the time of day at `timestamp` can be shown in a zone that runs
/// `offset` seconds ahead of UTC.
pub open spec fn can_show(timestamp: int, offset: int) -> bool {
    is_calendar_instant(timestamp) && is_zone_offset(offset)
}

/// The hour of the day, 0 to 23, at `local_seconds` seconds of local time.
pub open spec fn hour_of(local_seconds: int) -> int {
    (local_seconds % (DAY as int)) / 3600
}

/// The minute of the hour, 0 to 59, at `local_seconds` seconds of local time.
pub open spec fn minute_of(local_seconds: int) -> int {
    (local_seconds % 3600) / 60
}

/// The time of day at `local_seconds` seconds of local time, as two digits
/// of the hour, a colon and two digits of the minute.
pub open spec fn clock_text(local_seconds: int) -> Seq<char> {
    seq![
        digit_char(hour_of(local_seconds) / 10),
        digit_char(hour_of(local_seconds) % 10),
        ':',
        digit_char(minute_of(local_seconds) / 10),
        digit_char(minute_of(local_seconds) % 10),
    ]
}

/// The time of day at the instant `timestamp` in a zone that runs `offset`
/// seconds ahead of UTC.
pub open spec fn clock_in_zone(timestamp: int, offset: int) -> Seq<char> {
    clock_text(timestamp + offset)
}

/// Whether `shown` is the time of day at the instant `timestamp` in some
/// zone, whichever it is.
pub open spec fn is_local_clock(shown: Seq<char>, timestamp: int) -> bool {
    exists|offset: int| is_zone_offset(offset) && shown == #[trigger] clock_in_zone(timestamp, offset)
}

/// Asks `chrono` how many seconds the process's local time zone runs ahead
/// of UTC at `timestamp`, through `DateTime::from_timestamp`,
/// `DateTime::with_timezone` with `Local`, and `FixedOffset::local_minus_utc`.
///
/// The contract claims that an answer comes exactly for the instants of the
/// calendar, and that it is less than a day either way. Which offset comes
/// depends on the machine's zone settings, so nothing more is said of it.
/// `chrono` panics here if the system's zone data itself names an offset of a
/// day or more; no argument brings that about.
#[verifier::external_body]
fn local_offset_at(timestamp: i64) -> (offset: Option<i32>)
    ensures
        offset is Some <==> is_calendar_instant(timestamp as int),
        offset matches Some(seconds) ==> is_zone_offset(seconds as int),
{
    let utc = DateTime::from_timestamp(timestamp, 0)?;
    Some(utc.with_timezone(&Local).offset().local_minus_utc())
}

/// Has `chrono` render the time of day at `timestamp` in the zone that runs
/// `offset_seconds` ahead of UTC, through `FixedOffset::east_opt`,
/// `TimeZone::timestamp_opt` and `DateTime::format` with the pattern `%H:%M`.
///
/// The contract claims that a text comes exactly when the instant is on the
/// calendar and the offset is less than a day either way, and that the text
/// is the zero-padded hour and minute of the local time of day, which is the
/// instant moved by the offset and reduced to one day.
#[verifier::external_body]
fn clock_at_offset(timestamp: i64, offset_seconds: i32) -> (text: Option<String>)
    ensures
        text is Some <==> can_show(timestamp as int, offset_seconds as int),
        text matches Some(shown) ==> shown@ == clock_in_zone(timestamp as int, offset_seconds as int),
{
    let zone = FixedOffset::east_opt(offset_seconds)?;
    let local = zone.timestamp_opt(timestamp, 0).single()?;
    Some(local.format("%H:%M").to_string())
}

/// The time of day at `timestamp` in the zone that runs `offset_seconds`
/// ahead of UTC, or `None` when the instant is not on the calendar or the
/// offset is a day or more.
pub fn format_timestamp_at(timestamp: i64, offset_seconds: i32) -> (text: Option<String>)
    ensures
        text is Some <==> can_show(timestamp as int, offset_seconds as int),
        text matches Some(shown) ==> shown@ == clock_in_zone(timestamp as int, offset_seconds as int),
{
    clock_at_offset(timestamp, offset_seconds)
}

/// The time of day at `timestamp` in the process's local time zone, or
/// `None` when the instant is not on the calendar. The zone decides the
/// offset; whatever it is, the text is the clock of the instant moved by it.
pub fn format_timestamp(timestamp: i64) -> (text: Option<String>)
    ensures
        text is Some <==> is_calendar_instant(timestamp as int),
        text matches Some(shown) ==> is_local_clock(shown@, timestamp as int),
{
    match local_offset_at(timestamp) {
        Some(offset) => format_timestamp_at(timestamp, offset),
        None => None,
    }
}

/// A clock text is five characters: two digits, a colon, two digits, with
/// the hour below 24 and the minute below 60.
pub proof fn lemma_clock_text_shape(local_seconds: int)
    ensures
        clock_text(local_seconds).len() == 5,
        clock_text(local_seconds)[2] == ':',
        0 <= hour_of(local_seconds) < 24,
        0 <= minute_of(local_seconds) < 60,
{
}

/// The clock repeats every day.
pub proof fn lemma_clock_text_daily(local_seconds: int, days: int)
    ensures
        clock_text(local_seconds + days * DAY) == clock_text(local_seconds),
{
    vstd::arithmetic::div_mod::lemma_mod_multiples_vanish(days, local_seconds, 86400);
    vstd::arithmetic::div_mod::lemma_mod_multiples_vanish(days * 24, local_seconds, 3600);
    assert(days * 24 * 3600 == days * 86400);
}

} // verus!
