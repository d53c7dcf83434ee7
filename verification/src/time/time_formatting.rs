//! Says in words how long ago a moment was.

use vstd::prelude::*;
use crate::text::{decimal, push_decimal, push_str, string_of};
use crate::time::{unix_now, Moment};

verus! {

/// The seconds of a minute.
pub const SECONDS_PER_MINUTE: u64 = 60;

/// The seconds of an hour.
pub const SECONDS_PER_HOUR: u64 = 3600;

/// The seconds of a day.
pub const SECONDS_PER_DAY: u64 = 86400;

/// The minutes of an hour.
pub const MINUTES_PER_HOUR: u64 = 60;

/// The words for a moment that lies `elapsed` seconds back. The largest
/// unit that fits is named: days alone; hours, with the minutes beyond them
/// where there are any; minutes alone; seconds. A moment that has not come
/// yet counts as the present one, so a negative `elapsed` reads as zero
/// seconds.
pub open spec fn relative_time(elapsed: int) -> Seq<char> {
    let secs: nat = if elapsed > 0 { elapsed as nat } else { 0 };
    let days: nat = secs / (SECONDS_PER_DAY as nat);
    let hours: nat = secs / (SECONDS_PER_HOUR as nat);
    let minutes: nat = secs / (SECONDS_PER_MINUTE as nat);
    if days > 0 {
        decimal(days) + "天前"@
    } else if hours > 0 {
        let beyond: nat = minutes % (MINUTES_PER_HOUR as nat);
        if beyond > 0 {
            decimal(hours) + "小时"@ + decimal(beyond) + "分钟前"@
        } else {
            decimal(hours) + "小时前"@
        }
    } else if minutes > 0 {
        decimal(minutes) + "分钟前"@
    } else {
        decimal(secs) + "秒前"@
    }
}

/// The nanoseconds of a second.
pub const NANOS_PER_SECOND: u64 = 1_000_000_000;

/// The whole seconds that have passed from the moment `then` to the moment
/// `now`: the nanoseconds between the two, in seconds, with what is short
/// of a second left off. It is zero where `now` is not the later one.
pub open spec fn elapsed_seconds(then: Moment, now: Moment) -> nat {
    let nanos = (now.secs - then.secs) * NANOS_PER_SECOND + (now.nanos - then.nanos);
    if nanos > 0 {
        (nanos / (NANOS_PER_SECOND as int)) as nat
    } else {
        0
    }
}

/// Between two moments without a fraction the seconds are the difference
/// of the two counts; a fraction at the earlier moment that is larger than
/// the one at the later moment takes one second off.
pub proof fn lemma_elapsed_seconds(then: Moment, now: Moment)
    requires
        then.nanos < NANOS_PER_SECOND,
        now.nanos < NANOS_PER_SECOND,
        then.secs < now.secs,
    ensures
        elapsed_seconds(then, now) == if then.nanos <= now.nanos {
            now.secs - then.secs
        } else {
            now.secs - then.secs - 1
        },
{
    let whole = now.secs - then.secs;
    let part = now.nanos - then.nanos;
    if part >= 0 {
        assert((whole * 1_000_000_000 + part) / 1_000_000_000 == whole) by (nonlinear_arith)
            requires
                0 <= part < 1_000_000_000,
        ;
    } else {
        assert((whole * 1_000_000_000 + part) / 1_000_000_000 == whole - 1) by (nonlinear_arith)
            requires
                -1_000_000_000 < part < 0,
        ;
        assert(whole * 1_000_000_000 + part > 0) by (nonlinear_arith)
            requires
                whole >= 1,
                -1_000_000_000 < part,
        ;
    }
}

/// The words for the moment `time` as seen from the moment `now`.
pub open spec fn relative_to(time: Moment, now: Moment) -> Seq<char> {
    relative_time(elapsed_seconds(time, now) as int)
}

/// The words for a moment that lies `secs` seconds back.
fn format_seconds(secs: u128) -> (s: String)
    ensures
        s@ == relative_time(secs as int),
{
    let days: u128 = secs / (SECONDS_PER_DAY as u128);
    let hours: u128 = secs / (SECONDS_PER_HOUR as u128);
    let minutes: u128 = secs / (SECONDS_PER_MINUTE as u128);
    let mut out: Vec<char> = Vec::new();
    if days > 0 {
        push_decimal(&mut out, days);
        push_str(&mut out, "天前");
    } else if hours > 0 {
        push_decimal(&mut out, hours);
        let beyond: u128 = minutes % (MINUTES_PER_HOUR as u128);
        if beyond > 0 {
            push_str(&mut out, "小时");
            push_decimal(&mut out, beyond);
            push_str(&mut out, "分钟前");
        } else {
            push_str(&mut out, "小时前");
        }
    } else if minutes > 0 {
        push_decimal(&mut out, minutes);
        push_str(&mut out, "分钟前");
    } else {
        push_decimal(&mut out, secs);
        push_str(&mut out, "秒前");
    }
    let s = string_of(&out, 0, out.len());
    assert(out@.subrange(0, out.len() as int) =~= out@);
    s
}

/// The words for a moment that lies `secs` seconds back.
pub fn format_elapsed(secs: u64) -> (s: String)
    ensures
        s@ == relative_time(secs as int),
{
    format_seconds(secs as u128)
}

/// The words for the moment `time` as seen from the moment `now`.
pub fn format_relative_to(time: Moment, now: Moment) -> (s: String)
    ensures
        s@ == relative_to(time, now),
{
    let secs_between: i128 = now.secs as i128 - time.secs as i128;
    assert(-0x1_0000_0000_0000_0000 * 1_000_000_000 <= secs_between * 1_000_000_000
        <= 0x1_0000_0000_0000_0000 * 1_000_000_000) by (nonlinear_arith)
        requires
            -0x1_0000_0000_0000_0000 <= secs_between <= 0x1_0000_0000_0000_0000,
    ;
    let nanos: i128 = secs_between * (NANOS_PER_SECOND as i128) + (now.nanos as i128
        - time.nanos as i128);
    let secs: u128 = if nanos > 0 {
        (nanos / (NANOS_PER_SECOND as i128)) as u128
    } else {
        0
    };
    format_seconds(secs)
}

/// The words for the moment `time` as seen from the present moment, which
/// the clock gives.
pub fn format_relative_time(time: Moment) -> (s: String)
    ensures
        exists|now: Moment| s@ == #[trigger] relative_to(time, now),
{
    let now = unix_now();
    format_relative_to(time, now)
}

} // verus!
