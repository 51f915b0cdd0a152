//! The end of the local day, which closes the window of a history query.
//!
//! The machine's time zone says how far the local clock is ahead of UTC at an
//! instant, and when the local clock shows a given time. The arithmetic
//! between the two is done here.

use vstd::prelude::*;
use vstd::arithmetic::div_mod::lemma_fundamental_div_mod_converse;
use chrono::{DateTime, Local, TimeZone};

verus! {

/// The seconds of a day.
pub const DAY: i64 = 86_400;

/// The first second of the calendar that `chrono` keeps: the start of the
/// year -262143, in seconds since the epoch.
pub const CALENDAR_START: i64 = -8_334_601_228_800;

/// The last second of the calendar that `chrono` keeps: the end of the year
/// 262142, in seconds since the epoch.
pub const CALENDAR_END: i64 = 8_210_266_876_799;

/// The calendar holds the second.
pub open spec fn in_calendar(secs: int) -> bool {
    CALENDAR_START <= secs <= CALENDAR_END
}

/// A local clock is ahead of UTC, or behind it, by less than a day.
pub open spec fn is_offset(seconds: int) -> bool {
    -DAY < seconds < DAY
}

/// The last second of the day on which a clock shows `local`, on that clock.
pub open spec fn day_end_on_clock(local: int) -> int {
    local - local % (DAY as int) + DAY - 1
}

/// The instant at which the local day of the instant `unix_time` ends, where
/// the local clock is `at` seconds ahead of UTC at that instant and `then`
/// seconds ahead when the day ends.
pub open spec fn day_end_between(unix_time: int, at: int, then: int) -> int {
    day_end_on_clock(unix_time + at) - then
}

/// Asks `chrono`'s `Local` for the instant `unix_time`, with `timestamp_opt`,
/// and reads how far the local clock is ahead of UTC then, with
/// `local_minus_utc`. `chrono` places no instant outside its calendar, and
/// keeps every offset under a day. The offset depends on the time zone of the
/// machine.
#[verifier::external_body]
fn local_offset_at(unix_time: i64) -> (r: Option<i32>)
    ensures
        r is Some ==> in_calendar(unix_time as int),
        r matches Some(ahead) ==> is_offset(ahead as int),
{
    Some(Local.timestamp_opt(unix_time, 0).single()?.offset().local_minus_utc())
}

/// Asks `chrono`'s `Local`, with `from_local_datetime`, for the one instant at
/// which the local clock shows `local` (seconds since the epoch, read off the
/// clock), and reads how far the clock is ahead of UTC then. Gives `None`
/// where the clock shows that time twice or not at all, or where the time or
/// the instant lies outside `chrono`'s calendar. The offset depends on the
/// time zone of the machine.
#[verifier::external_body]
fn local_offset_on_clock(local: i64) -> (r: Option<i32>)
    ensures
        r is Some ==> in_calendar(local as int),
        r matches Some(ahead) ==> is_offset(ahead as int),
{
    let shown = DateTime::from_timestamp(local, 0)?.naive_utc();
    Some(Local.from_local_datetime(&shown).single()?.offset().local_minus_utc())
}

/// The seconds since midnight on a clock that shows `local`.
pub fn second_of_day(local: i64) -> (r: i64)
    ensures
        r == local as int % (DAY as int),
        0 <= r < DAY,
{
    if local >= 0 {
        local % DAY
    } else {
        let before = -(local + 1);
        let left = before % DAY;
        proof {
            let days = before as int / (DAY as int);
            assert(before == days * DAY + left) by (nonlinear_arith)
                requires
                    days == before as int / (DAY as int),
                    left == before as int % (DAY as int),
            ;
            assert(local == (-days - 1) * DAY + (DAY - 1 - left)) by (nonlinear_arith)
                requires
                    before == days * DAY + left,
                    before == -(local + 1),
            ;
            lemma_fundamental_div_mod_converse(
                local as int,
                DAY as int,
                -days - 1,
                DAY - 1 - left,
            );
        }
        DAY - 1 - left
    }
}

/// The last second of the day that a clock shows at the instant `unix_time`,
/// read off that clock, where the clock is `at` seconds ahead of UTC.
pub fn clock_day_end(unix_time: i64, at: i32) -> (last: i64)
    requires
        in_calendar(unix_time as int),
        is_offset(at as int),
    ensures
        last == day_end_on_clock(unix_time + at),
{
    let local = unix_time + at as i64;
    local - second_of_day(local) + (DAY - 1)
}

/// The instant at which a clock shows `last`, where the clock is `then`
/// seconds ahead of UTC at that instant.
pub fn instant_on_clock(last: i64, then: i32) -> (end: i64)
    requires
        in_calendar(last as int),
        is_offset(then as int),
    ensures
        end == last - then,
{
    last - then as i64
}

/// Where both offsets are offsets, the day ends less than two days before
/// the instant and less than three days after it; where the clock is as far
/// ahead at the end of the day as at the instant, the day ends at the
/// instant or later, and within the day.
pub proof fn lemma_day_end_is_near(unix_time: int, at: int, then: int)
    requires
        is_offset(at),
        is_offset(then),
    ensures
        -2 * DAY < day_end_between(unix_time, at, then) - unix_time < 3 * DAY,
        at == then ==> unix_time <= day_end_between(unix_time, at, then) < unix_time + DAY,
        day_end_on_clock(day_end_between(unix_time, at, then) + then) == day_end_between(
            unix_time,
            at,
            then,
        ) + then,
{
    let local = unix_time + at;
    let last = day_end_on_clock(local);
    let midnight = local - local % (DAY as int);
    assert(0 <= local % (DAY as int) < DAY);
    assert(midnight == (local / (DAY as int)) * DAY) by (nonlinear_arith)
        requires
            midnight == local - local % (DAY as int),
    ;
    lemma_fundamental_div_mod_converse(last, DAY as int, local / (DAY as int), DAY - 1);
}

/// The last second of the local day that holds the instant `unix_time`, as
/// seconds since the epoch: the day is the one that the local clock shows at
/// the instant, and its last second is taken at the offset that the clock
/// has when it shows 23:59:59 on that day. `None` where the instant lies
/// outside the calendar, or where the clock shows that second twice or not
/// at all.
pub fn get_day_end(unix_time: i64) -> (r: Option<i64>)
    ensures
        r is Some ==> in_calendar(unix_time as int),
        r matches Some(end) ==> exists|at: int, then: int|
            is_offset(at) && is_offset(then) && end == #[trigger] day_end_between(
                unix_time as int,
                at,
                then,
            ),
        r matches Some(end) ==> -2 * DAY < end - unix_time < 3 * DAY,
{
    let at = match local_offset_at(unix_time) {
        Some(at) => at,
        None => {
            return None;
        },
    };
    let last = clock_day_end(unix_time, at);
    let then = match local_offset_on_clock(last) {
        Some(then) => then,
        None => {
            return None;
        },
    };
    let end = instant_on_clock(last, then);
    proof {
        assert(end == day_end_between(unix_time as int, at as int, then as int));
        lemma_day_end_is_near(unix_time as int, at as int, then as int);
    }
    Some(end)
}

} // verus!
