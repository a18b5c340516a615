//! "How long ago" descriptions of past instants, up to about a month.

use vstd::prelude::*;
use vstd::string::*;
use crate::clock::{now_utc, representable, trunc_div, whole_seconds, Timestamp};
use crate::text::{int_decimal, push_int_decimal};

verus! {

pub const SECONDS_PER_MINUTE: i128 = 60;
pub const SECONDS_PER_HOUR: i128 = 3_600;
pub const SECONDS_PER_DAY: i128 = 86_400;
pub const SECONDS_PER_WEEK: i128 = 604_800;

/// The description of a span of `elapsed` nanoseconds: the span in whole
/// seconds, minutes, hours, days or weeks (the first unit in which it is at
/// most 60 seconds, 60 minutes, 24 hours, 7 days or 4 weeks), or
/// "More than a month ago".
pub open spec fn time_ago_text(elapsed: int) -> Seq<char> {
    let seconds = trunc_div(elapsed, 1_000_000_000);
    if elapsed <= 60 * 1_000_000_000 {
        int_decimal(seconds) + " second/s ago"@
    } else if elapsed <= 3_600 * 1_000_000_000 {
        int_decimal(seconds / 60) + " minute/s ago"@
    } else if elapsed <= 86_400 * 1_000_000_000 {
        int_decimal(seconds / 3_600) + " hour/s ago"@
    } else if elapsed <= 7 * 86_400 * 1_000_000_000 {
        int_decimal(seconds / 86_400) + " day/s ago"@
    } else if elapsed <= 4 * 604_800 * 1_000_000_000 {
        int_decimal(seconds / 604_800) + " week/s ago"@
    } else {
        "More than a month ago"@
    }
}

fn count_then(count: i128, suffix: &str) -> (r: String)
    ensures
        r@ == int_decimal(count as int) + suffix@,
{
    let mut text = String::new();
    push_int_decimal(&mut text, count);
    text.append(suffix);
    text
}

/// How long before `now` the instant `date` lies.
pub fn format_time_difference_at(now: Timestamp, date: Timestamp) -> (r: String)
    ensures
        r@ == time_ago_text(now.total_nanos() - date.total_nanos()),
{
    let elapsed = now.nanos_since(&date);
    let seconds = whole_seconds(elapsed);
    if elapsed <= 60 * 1_000_000_000 {
        count_then(seconds, " second/s ago")
    } else if elapsed <= 3_600 * 1_000_000_000 {
        count_then(seconds / SECONDS_PER_MINUTE, " minute/s ago")
    } else if elapsed <= 86_400 * 1_000_000_000 {
        count_then(seconds / SECONDS_PER_HOUR, " hour/s ago")
    } else if elapsed <= 7 * 86_400 * 1_000_000_000 {
        count_then(seconds / SECONDS_PER_DAY, " day/s ago")
    } else if elapsed <= 4 * 604_800 * 1_000_000_000 {
        count_then(seconds / SECONDS_PER_WEEK, " week/s ago")
    } else {
        String::from_str("More than a month ago")
    }
}

/// How long ago the instant `date` lies, by the system clock.
pub fn format_time_difference(date: Timestamp) -> (r: String)
    ensures
        exists|now: Timestamp|
            representable(now) && r@ == time_ago_text(now.total_nanos() - date.total_nanos()),
{
    let now = now_utc();
    format_time_difference_at(now, date)
}

} // verus!
