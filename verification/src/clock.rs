//! Moments in time: seconds since the Unix epoch, in UTC.

use chrono::DateTime;
use vstd::prelude::*;

use crate::json;

verus! {

/// The seconds of a day.
pub const DAY: i64 = 86400;

/// The first and the last moment of the calendar: the years from -262143 to 262142.
pub open spec fn in_calendar(now: i64) -> bool {
    -8334601228800 <= now <= 8210266876799
}

/// The moment at which the day of `now` begins.
pub open spec fn day_start(now: i64) -> int {
    now - now as int % DAY as int
}

/// The full hour on the day of a moment; `None` for a moment outside the calendar or an
/// hour that no day has.
pub open spec fn full_hour(now: i64, hour: u32) -> Option<int> {
    if in_calendar(now) && hour < 24 {
        Some(day_start(now) + hour * 3600)
    } else {
        None
    }
}

/// The number that an optional moment is.
pub open spec fn moment_of(moment: Option<i64>) -> Option<int> {
    match moment {
        Some(t) => Some(t as int),
        None => None,
    }
}

/// What `DateTime::format` writes for a moment of the calendar; `None` outside it.
pub uninterp spec fn formatted_time(now: i64, format: Seq<char>) -> Option<Seq<char>>;

/// `DateTime::from_timestamp`, `date_naive` and `and_hms_opt`: the full hour on the day of a
/// moment, and `None` for a moment outside the calendar or an hour that no day has.
#[verifier::external_body]
pub(crate) fn hour_of_day(now: i64, hour: u32) -> (r: Option<i64>)
    ensures
        moment_of(r) == full_hour(now, hour),
{
    let day = DateTime::from_timestamp(now, 0)?.date_naive();
    day.and_hms_opt(hour, 0, 0).map(|t| t.and_utc().timestamp())
}

/// `DateTime::format`: the text of a moment in a format of year, month, day, hour, minute
/// and second; `None` for a moment outside the calendar.
#[verifier::external_body]
pub(crate) fn format_time(now: i64, format: &str) -> (r: Option<String>)
    requires
        format@ == "%Y-%m-%d"@ || format@ == "%H%M%S"@ || format@ == "%Y-%m-%d %H:%M:%S"@,
    ensures
        json::string_of(r) == formatted_time(now, format@),
        r is Some <==> in_calendar(now),
{
    DateTime::from_timestamp(now, 0).map(|t| t.format(format).to_string())
}

/// The session that a thread belongs to begins anew: the thread was last used before
/// today's reset, and the reset has passed.
pub open spec fn reset_due(reset_hour: Option<u32>, last_active: Option<i64>, now: i64) -> bool {
    match (reset_hour, last_active) {
        (Some(hour), Some(last)) => match full_hour(now, hour) {
            Some(reset) => last < reset <= now,
            None => false,
        },
        _ => false,
    }
}

/// Whether the session that a thread belongs to begins anew. `last_active` is the moment at
/// which the thread was last used.
pub fn daily_reset_due(reset_hour: Option<u32>, last_active: Option<i64>, now: i64) -> (r: bool)
    ensures
        r == reset_due(reset_hour, last_active, now),
{
    match (reset_hour, last_active) {
        (Some(hour), Some(last)) => match hour_of_day(now, hour) {
            Some(reset) => last < reset && now >= reset,
            None => false,
        },
        _ => false,
    }
}

/// A session is reset at most once a day: a thread that was used after today's reset is not
/// reset again before tomorrow.
pub proof fn reset_comes_once_a_day(hour: u32, first: i64, last: i64, now: i64)
    requires
        in_calendar(first),
        hour < 24,
        day_start(first) + hour * 3600 <= first,
        first <= last,
        day_start(now) == day_start(first),
    ensures
        !reset_due(Some(hour), Some(last), now),
{
}

/// A session begins anew where the reset hour of today has passed and its thread was last
/// used before it, and in no other case.
pub proof fn reset_needs_a_passed_hour(hour: u32, last: i64, now: i64)
    requires
        in_calendar(now),
    ensures
        hour < 24 && now >= day_start(now) + hour * 3600 && last < day_start(now) + hour * 3600
            ==> reset_due(Some(hour), Some(last), now),
        now < day_start(now) + hour * 3600 ==> !reset_due(Some(hour), Some(last), now),
        last >= day_start(now) + hour * 3600 ==> !reset_due(Some(hour), Some(last), now),
        hour >= 24 ==> !reset_due(Some(hour), Some(last), now),
        !reset_due(None, Some(last), now),
        !reset_due(Some(hour), None, now),
{
}

/// The day of a moment begins at midnight, at most a day before it.
pub proof fn days_begin_at_midnight(now: i64)
    ensures
        day_start(now) % 86400 == 0,
        day_start(now) <= now < day_start(now) + 86400,
{
    assert(day_start(now) % 86400 == 0) by (nonlinear_arith)
        requires
            day_start(now) == now - now as int % 86400,
    {
        assert((now as int - now as int % 86400) % 86400 == 0);
    }
}

/// A moment outside the calendar has no reset hour, and neither has an hour that no day has.
pub proof fn no_reset_outside_the_calendar(hour: u32, last: Option<i64>, now: i64)
    ensures
        full_hour(now, hour) is Some <==> in_calendar(now) && hour < 24,
        !in_calendar(now) ==> !reset_due(Some(hour), last, now),
{
}

} // verus!
