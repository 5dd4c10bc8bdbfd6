//! The time of day in a named civil time zone, for the start of each line.

use vstd::prelude::*;
use chrono::Timelike;
use crate::logging::{format_line, line_text, ClockTime, Level};
use crate::text::text_of;

verus! {

/// Hour, minute and second that clocks in the zone named `zone` show
/// `unix_seconds` seconds after the start of 1970 in UTC; `None` where no zone
/// has that name or the instant lies outside the years that can be converted.
pub uninterp spec fn zone_clock(zone: Seq<char>, unix_seconds: int) -> Option<(u32, u32, u32)>;

/// chrono's `DateTime::with_timezone`, on the instant that
/// `DateTime::from_timestamp` makes of `unix_seconds` and the zone that
/// chrono-tz finds under the name `zone`, read off with `Timelike::hour`,
/// `minute` and `second`. The zone table is part of chrono-tz, so the result
/// depends on the two arguments alone; nothing more is claimed of it.
#[verifier::external_body]
fn clock_in_zone(zone: &str, unix_seconds: i64) -> (res: Option<(u32, u32, u32)>)
    ensures
        res == zone_clock(zone@, unix_seconds as int),
{
    let tz = zone.parse::<chrono_tz::Tz>().ok()?;
    let utc = chrono::DateTime::from_timestamp(unix_seconds, 0)?;
    let local = utc.with_timezone(&tz);
    Some((local.hour(), local.minute(), local.second()))
}

/// The zone in which the lines of a run are stamped.
pub open spec fn log_zone_name() -> Seq<char> {
    "Europe/Moscow"@
}

/// The name of the zone in which the lines of a run are stamped, whatever the
/// zone of the machine.
pub fn log_zone() -> (res: &'static str)
    ensures
        res@ == log_zone_name(),
{
    "Europe/Moscow"
}

/// The time of day that a converted instant stands for.
pub open spec fn clock_of(converted: Option<(u32, u32, u32)>) -> Option<ClockTime> {
    match converted {
        Some((hour, minute, second)) => Some(ClockTime { hour, minute, second }),
        None => None,
    }
}

/// The line for a message at a converted instant, if the conversion gave one.
pub open spec fn stamped_line(
    converted: Option<(u32, u32, u32)>,
    level: Level,
    target: Seq<char>,
    message: Seq<char>,
) -> Option<Seq<char>> {
    match clock_of(converted) {
        Some(clock) => Some(line_text(clock, level, target, message)),
        None => None,
    }
}

/// Writes the line for a message, given what the conversion of the instant
/// gave: the line with that time of day, or nothing where it gave nothing.
pub fn stamp_line(
    converted: Option<(u32, u32, u32)>,
    level: Level,
    target: &str,
    message: &str,
) -> (res: Option<String>)
    ensures
        text_of(res) == stamped_line(converted, level, target@, message@),
{
    match converted {
        Some((hour, minute, second)) => {
            let clock = ClockTime { hour, minute, second };
            Some(format_line(clock, level, target, message))
        },
        None => None,
    }
}

/// The time of day in the zone named `zone` at `unix_seconds` seconds after
/// the start of 1970 in UTC.
pub fn time_of_day(zone: &str, unix_seconds: i64) -> (res: Option<ClockTime>)
    ensures
        res == clock_of(zone_clock(zone@, unix_seconds as int)),
{
    match clock_in_zone(zone, unix_seconds) {
        Some((hour, minute, second)) => Some(ClockTime { hour, minute, second }),
        None => None,
    }
}

/// Writes the line for a message that is logged at `unix_seconds` seconds
/// after the start of 1970 in UTC, stamped in the zone named `zone`.
pub fn line_at(zone: &str, unix_seconds: i64, level: Level, target: &str, message: &str) -> (res:
    Option<String>)
    ensures
        text_of(res) == stamped_line(
            zone_clock(zone@, unix_seconds as int),
            level,
            target@,
            message@,
        ),
{
    stamp_line(clock_in_zone(zone, unix_seconds), level, target, message)
}

} // verus!
