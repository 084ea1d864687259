//! Points in time, and how they are written and shown.

use vstd::prelude::*;

use crate::clock::Duration;
use crate::text::{cat, decimal, format_u64};

verus! {

/// The first second of the calendar, counted from the start of 1970 in UTC.
pub const FIRST_SECOND: i64 = -8_334_601_228_800;

/// The last second of the calendar, counted from the start of 1970 in UTC.
pub const LAST_SECOND: i64 = 8_210_266_876_799;

/// The nanoseconds of a second.
pub const SECOND: u32 = 1_000_000_000;

/// A point in time: whole seconds since the start of 1970 in UTC, and the
/// nanoseconds beyond. A leap second is written as the second before it with
/// more than a second of nanoseconds.
#[derive(Debug, Clone, Copy, PartialEq, Eq, Structural)]
pub struct Stamp {
    pub secs: i64,
    pub nanos: u32,
}

impl Stamp {
    /// Whether the point in time is in the calendar.
    pub open spec fn wf(self) -> bool {
        is_stamp(self.secs, self.nanos)
    }

    /// Whether the point in time is in the calendar.
    pub fn is_valid(&self) -> (r: bool)
        ensures
            r == self.wf(),
    {
        FIRST_SECOND <= self.secs && self.secs <= LAST_SECOND && self.nanos < 2_000_000_000 && (
        self.nanos < SECOND || (self.secs - FIRST_SECOND) % 60 == 59)
    }
}

/// Whether the seconds are in the calendar, and the nanoseconds less than one
/// second, or two in the last second of a minute.
pub open spec fn is_stamp(secs: i64, nanos: u32) -> bool {
    &&& FIRST_SECOND <= secs <= LAST_SECOND
    &&& nanos < 2_000_000_000
    &&& nanos >= SECOND ==> (secs - FIRST_SECOND) % 60 == 59
}

// ---------------------------------------------------------------------------
// Reading
// ---------------------------------------------------------------------------

/// What `chrono::DateTime::parse_from_rfc3339` reads: the seconds and the
/// nanoseconds.
pub uninterp spec fn rfc3339_stamp(s: Seq<char>) -> Option<(i64, u32)>;

/// What `chrono::NaiveDateTime::parse_from_str` reads with the format
/// `%Y-%m-%d %H:%M:%S`, taken as UTC: the seconds and the nanoseconds.
pub uninterp spec fn sqlite_stamp(s: Seq<char>) -> Option<(i64, u32)>;

/// `chrono::DateTime::parse_from_rfc3339`: what is read depends on the string
/// alone, and is a point in the calendar.
#[verifier::external_body]
fn parse_rfc3339(s: &str) -> (r: Option<(i64, u32)>)
    ensures
        r == rfc3339_stamp(s@),
        r matches Some(t) ==> is_stamp(t.0, t.1),
{
    let t = chrono::DateTime::parse_from_rfc3339(s).ok()?;
    Some((t.timestamp(), t.timestamp_subsec_nanos()))
}

/// `chrono::NaiveDateTime::parse_from_str` with the format
/// `%Y-%m-%d %H:%M:%S`, taken as UTC: what is read depends on the string alone,
/// and is a point in the calendar.
#[verifier::external_body]
fn parse_sqlite(s: &str) -> (r: Option<(i64, u32)>)
    ensures
        r == sqlite_stamp(s@),
        r matches Some(t) ==> is_stamp(t.0, t.1),
{
    let t = chrono::NaiveDateTime::parse_from_str(s, "%Y-%m-%d %H:%M:%S").ok()?.and_utc();
    Some((t.timestamp(), t.timestamp_subsec_nanos()))
}

/// The point in time that `s` writes: RFC 3339, or SQLite's format in UTC.
pub open spec fn stamp_of(s: Seq<char>) -> Option<(i64, u32)> {
    match rfc3339_stamp(s) {
        Some(t) => Some(t),
        None => sqlite_stamp(s),
    }
}

/// The point in time that `s` writes.
pub fn parse_stamp(s: &str) -> (r: Option<Stamp>)
    ensures
        match r {
            Some(t) => t.wf() && stamp_of(s@) == Some((t.secs, t.nanos)),
            None => stamp_of(s@) is None,
        },
{
    match parse_rfc3339(s) {
        Some((secs, nanos)) => Some(Stamp { secs, nanos }),
        None => match parse_sqlite(s) {
            Some((secs, nanos)) => Some(Stamp { secs, nanos }),
            None => None,
        },
    }
}

// ---------------------------------------------------------------------------
// Arithmetic
// ---------------------------------------------------------------------------

/// The second of the day in UTC.
pub open spec fn second_of_day(secs: int) -> int {
    (secs - FIRST_SECOND) % 86_400
}

/// The leap second between two points in time, if one of them lies in it and
/// the other is at another time of day.
pub open spec fn leap_between(then: Stamp, now: Stamp) -> int {
    if second_of_day(now.secs as int) > second_of_day(then.secs as int) && then.nanos >= SECOND {
        1
    } else if second_of_day(now.secs as int) < second_of_day(then.secs as int) && now.nanos
        >= SECOND {
        -1
    } else {
        0
    }
}

/// The nanoseconds from `then` to `now`.
pub open spec fn nanos_between(then: Stamp, now: Stamp) -> int {
    (now.secs - then.secs + leap_between(then, now)) * SECOND + now.nanos - then.nanos
}

/// The whole seconds of `nanos`, rounded toward zero.
pub open spec fn whole_seconds(nanos: int) -> int {
    if nanos >= 0 {
        nanos / SECOND as int
    } else {
        -((-nanos) / SECOND as int)
    }
}

/// `chrono::DateTime::signed_duration_since` and `chrono::TimeDelta::num_seconds`
/// on two points in the calendar: the whole seconds between them, with a leap
/// second counted as `leap_between` says.
#[verifier::external_body]
fn seconds_between(then: Stamp, now: Stamp) -> (r: i64)
    requires
        then.wf(),
        now.wf(),
    ensures
        r == whole_seconds(nanos_between(then, now)),
{
    let a = chrono::DateTime::from_timestamp(then.secs, then.nanos).unwrap();
    let b = chrono::DateTime::from_timestamp(now.secs, now.nanos).unwrap();
    b.signed_duration_since(a).num_seconds()
}

/// The point in time `cooldown` after `then`, where it is in the calendar. A
/// leap second is left as soon as its end is reached.
pub open spec fn stamp_plus(then: Stamp, cooldown: nat) -> Option<Stamp> {
    if then.nanos >= SECOND && then.nanos + cooldown < 2_000_000_000 {
        Some(Stamp { secs: then.secs, nanos: (then.nanos + cooldown) as u32 })
    } else {
        let n = (if then.nanos >= SECOND {
            then.nanos - SECOND
        } else {
            then.nanos as int
        }) + cooldown;
        let secs = then.secs + n / SECOND as int;
        if secs <= LAST_SECOND {
            Some(Stamp { secs: secs as i64, nanos: (n % SECOND as int) as u32 })
        } else {
            None
        }
    }
}

/// `chrono::DateTime::checked_add_signed` with a duration that
/// `chrono::TimeDelta::from_std` converts, or the longest one where it is longer
/// still: the sum, or nothing beyond the calendar.
#[verifier::external_body]
fn add_duration(then: Stamp, secs: u64, nanos: u32) -> (r: Option<(i64, u32)>)
    requires
        then.wf(),
        nanos < SECOND,
    ensures
        match r {
            Some(t) => stamp_plus(then, (secs * SECOND + nanos) as nat) == Some(
                (Stamp { secs: t.0, nanos: t.1 }),
            ),
            None => stamp_plus(then, (secs * SECOND + nanos) as nat) is None,
        },
{
    let start = chrono::DateTime::from_timestamp(then.secs, then.nanos).unwrap();
    let cooldown = chrono::TimeDelta::from_std(std::time::Duration::new(secs, nanos));
    let end = start.checked_add_signed(cooldown.unwrap_or(chrono::TimeDelta::MAX))?;
    Some((end.timestamp(), end.timestamp_subsec_nanos()))
}

/// `then` and `cooldown` later.
pub fn later(then: Stamp, cooldown: Duration) -> (r: Option<Stamp>)
    requires
        then.wf(),
    ensures
        r == stamp_plus(then, cooldown@),
        r matches Some(t) ==> t.wf(),
{
    let secs: u64 = cooldown.as_secs();
    let nanos: u32 = cooldown.subsec_nanos();
    proof {
        assert(secs * SECOND + nanos == cooldown@) by {
            let n = cooldown@ as int;
            assert(n == (n / SECOND as int) * SECOND + n % SECOND as int);
        }
    }
    match add_duration(then, secs, nanos) {
        Some((secs, nanos)) => Some(Stamp { secs, nanos }),
        None => None,
    }
}

/// Whether `a` is at `b` or after it.
pub open spec fn not_before(a: Stamp, b: Stamp) -> bool {
    a.secs > b.secs || (a.secs == b.secs && a.nanos >= b.nanos)
}

/// Whether `a` is at `b` or after it.
pub fn reaches(a: Stamp, b: Stamp) -> (r: bool)
    ensures
        r == not_before(a, b),
{
    a.secs > b.secs || (a.secs == b.secs && a.nanos >= b.nanos)
}

// ---------------------------------------------------------------------------
// Showing
// ---------------------------------------------------------------------------

/// How an age in seconds is shown: in the largest unit that it fills.
pub open spec fn age_of(secs: int) -> Seq<char> {
    if secs < 0 {
        "just now"@
    } else if secs < 60 {
        decimal(secs as nat) + "s ago"@
    } else if secs < 3_600 {
        decimal((secs / 60) as nat) + "m ago"@
    } else if secs < 86_400 {
        decimal((secs / 3_600) as nat) + "h ago"@
    } else {
        decimal((secs / 86_400) as nat) + "d ago"@
    }
}

/// How an age in seconds is shown.
pub fn format_age(secs: i64) -> (r: String)
    ensures
        r@ == age_of(secs as int),
{
    if secs < 0 {
        return String::from_str("just now");
    }
    let secs: u64 = secs as u64;
    if secs < 60 {
        return cat(format_u64(secs).as_str(), "s ago");
    }
    let mins: u64 = secs / 60;
    if mins < 60 {
        return cat(format_u64(mins).as_str(), "m ago");
    }
    let hours: u64 = mins / 60;
    if hours < 24 {
        return cat(format_u64(hours).as_str(), "h ago");
    }
    cat(format_u64(hours / 24).as_str(), "d ago")
}

/// How the point in time that `timestamp` writes is shown at `now`. A string
/// that writes none is shown as it stands.
pub open spec fn relative_time(timestamp: Seq<char>, now: Stamp) -> Seq<char> {
    match stamp_of(timestamp) {
        Some(t) => age_of(
            whole_seconds(nanos_between(Stamp { secs: t.0, nanos: t.1 }, now)),
        ),
        None => timestamp,
    }
}

/// Convert an ISO 8601 / RFC 3339 timestamp string to a human-readable relative
/// time like "30s ago", "2m ago", "1h ago", "3d ago".
pub fn format_relative_time(timestamp: &str, now: Stamp) -> (r: String)
    requires
        now.wf(),
    ensures
        r@ == relative_time(timestamp@, now),
{
    match parse_stamp(timestamp) {
        Some(then) => format_age(seconds_between(then, now)),
        None => String::from_str(timestamp),
    }
}

/// How long a process has been up, in its two largest units.
pub open spec fn uptime_of(secs: nat) -> Seq<char> {
    if secs < 60 {
        decimal(secs) + "s"@
    } else if secs < 3_600 {
        decimal(secs / 60) + "m "@ + decimal(secs % 60) + "s"@
    } else if secs < 86_400 {
        decimal(secs / 3_600) + "h "@ + decimal(secs / 60 % 60) + "m"@
    } else {
        decimal(secs / 86_400) + "d "@ + decimal(secs / 3_600 % 24) + "h"@
    }
}

/// How long a process has been up.
pub fn format_uptime(secs: u64) -> (r: String)
    ensures
        r@ == uptime_of(secs as nat),
{
    if secs < 60 {
        return cat(format_u64(secs).as_str(), "s");
    }
    let mins: u64 = secs / 60;
    if mins < 60 {
        let mut out = format_u64(mins);
        out.append("m ");
        out.append(format_u64(secs % 60).as_str());
        out.append("s");
        return out;
    }
    let hours: u64 = mins / 60;
    if hours < 24 {
        let mut out = format_u64(hours);
        out.append("h ");
        out.append(format_u64(mins % 60).as_str());
        out.append("m");
        return out;
    }
    let mut out = format_u64(hours / 24);
    out.append("d ");
    out.append(format_u64(hours % 24).as_str());
    out.append("h");
    out
}

// ---------------------------------------------------------------------------
// What holds of times
// ---------------------------------------------------------------------------

/// A time comes `cooldown` nanoseconds after another if that many lie between them. Past
/// the end of the calendar there is none. (In a leap second the nanoseconds go on beyond
/// a whole second; it is left out here.)
pub proof fn law_times_are_put_off_exactly(then: Stamp, cooldown: nat)
    requires
        then.nanos < 1_000_000_000,
    ensures
        stamp_plus(then, cooldown) is Some <==> then.secs * 1_000_000_000 + then.nanos + cooldown < (
        8_210_266_876_799 + 1) * 1_000_000_000,
        stamp_plus(then, cooldown) matches Some(end) ==> {
            &&& end.nanos < 1_000_000_000
            &&& end.secs * 1_000_000_000 + end.nanos == then.secs * 1_000_000_000 + then.nanos
                + cooldown
        },
{
    let n = then.nanos + cooldown;
    assert(n == (n / 1_000_000_000) * 1_000_000_000 + n % 1_000_000_000);
    assert(0 <= n % 1_000_000_000 < 1_000_000_000);
    if stamp_plus(then, cooldown) is Some {
        assert(then.secs + n / 1_000_000_000 <= LAST_SECOND);
        assert(i64::MIN <= then.secs + n / 1_000_000_000);
    }
}

/// A leap second holds one more second of nanoseconds. What is put off beyond it goes on
/// with the second that follows.
pub proof fn law_leap_second_is_left(then: Stamp, cooldown: nat)
    requires
        then.wf(),
        then.nanos >= 1_000_000_000,
    ensures
        then.nanos + cooldown < 2_000_000_000 ==> stamp_plus(then, cooldown) == Some(
            Stamp { secs: then.secs, nanos: (then.nanos + cooldown) as u32 },
        ),
        then.nanos + cooldown >= 2_000_000_000 ==> {
            let total = then.secs * 1_000_000_000 + (then.nanos - 1_000_000_000) + cooldown;
            &&& stamp_plus(then, cooldown) is Some <==> total < (8_210_266_876_799 + 1)
                * 1_000_000_000
            &&& stamp_plus(then, cooldown) matches Some(end) ==> end.nanos < 1_000_000_000
                && end.secs * 1_000_000_000 + end.nanos == total
        },
{
    let n = then.nanos - 1_000_000_000 + cooldown;
    assert(n == (n / 1_000_000_000) * 1_000_000_000 + n % 1_000_000_000);
    assert(0 <= n % 1_000_000_000 < 1_000_000_000);
}

/// One of two times is not before the other, and both only if they are the same.
pub proof fn law_times_are_ordered(a: Stamp, b: Stamp)
    ensures
        not_before(a, b) || not_before(b, a),
        not_before(a, b) && not_before(b, a) <==> a == b,
        a.nanos < 1_000_000_000 && b.nanos < 1_000_000_000 ==> (not_before(a, b) <==> a.secs
            * 1_000_000_000 + a.nanos >= b.secs * 1_000_000_000 + b.nanos),
{
}

/// The time between two times is the same in both directions. Outside of leap seconds it
/// is the difference of their nanoseconds.
pub proof fn law_time_between_is_the_difference(then: Stamp, now: Stamp)
    ensures
        nanos_between(now, then) == -nanos_between(then, now),
        then.nanos < 1_000_000_000 && now.nanos < 1_000_000_000 ==> nanos_between(then, now) == (
        now.secs * 1_000_000_000 + now.nanos) - (then.secs * 1_000_000_000 + then.nanos),
        then.nanos < 1_000_000_000 && now.nanos >= 1_000_000_000 ==> {
            let plain = (now.secs * 1_000_000_000 + now.nanos) - (then.secs * 1_000_000_000
                + then.nanos);
            let later_in_the_day = (then.secs - FIRST_SECOND) % 86_400 > (now.secs - FIRST_SECOND)
                % 86_400;
            &&& later_in_the_day ==> nanos_between(then, now) == plain - 1_000_000_000
            &&& !later_in_the_day ==> nanos_between(then, now) == plain
        },
        whole_seconds(-nanos_between(then, now)) == -whole_seconds(nanos_between(then, now)),
        nanos_between(then, now) >= 0 ==> whole_seconds(nanos_between(then, now)) * 1_000_000_000
            <= nanos_between(then, now) < (whole_seconds(nanos_between(then, now)) + 1)
            * 1_000_000_000,
{
}

/// An age is told in the largest unit that it fills, and cut down to whole units.
pub proof fn law_age_is_told_in_the_largest_unit(secs: int, n: nat)
    ensures
        secs < 0 ==> age_of(secs) == "just now"@,
        0 <= secs < 60 ==> age_of(secs) == decimal(secs as nat) + "s ago"@,
        0 < n < 60 && 60 * n <= secs < 60 * (n + 1) ==> age_of(secs) == decimal(n) + "m ago"@,
        0 < n < 24 && 3_600 * n <= secs < 3_600 * (n + 1) ==> age_of(secs) == decimal(n)
            + "h ago"@,
        0 < n && 86_400 * n <= secs < 86_400 * (n + 1) ==> age_of(secs) == decimal(n) + "d ago"@,
{
    if 60 * n <= secs < 60 * (n + 1) {
        assert(secs / 60 == n);
    }
    if 3_600 * n <= secs < 3_600 * (n + 1) {
        assert(secs / 3_600 == n);
    }
    if 86_400 * n <= secs < 86_400 * (n + 1) {
        assert(secs / 86_400 == n);
    }
}

/// The age of a time that can be read is the time since then; one that cannot be read is
/// shown as it is. The internet format is tried first, then that of the database.
pub proof fn law_readable_times_are_shown_by_age(s: Seq<char>, now: Stamp)
    ensures
        rfc3339_stamp(s) is None && sqlite_stamp(s) is None ==> relative_time(s, now) == s,
        rfc3339_stamp(s) matches Some(t) ==> relative_time(s, now) == age_of(
            whole_seconds(nanos_between(Stamp { secs: t.0, nanos: t.1 }, now)),
        ),
        rfc3339_stamp(s) is None ==> (sqlite_stamp(s) matches Some(t) ==> relative_time(s, now)
            == age_of(whole_seconds(nanos_between(Stamp { secs: t.0, nanos: t.1 }, now)))),
{
}

/// An uptime is told in its largest unit and the one below.
pub proof fn law_uptime_is_told_in_two_units(days: nat, hours: nat, minutes: nat, seconds: nat)
    requires
        hours < 24,
        minutes < 60,
        seconds < 60,
    ensures
        uptime_of(seconds) == decimal(seconds) + "s"@,
        minutes > 0 ==> uptime_of(60 * minutes + seconds) == decimal(minutes) + "m "@ + decimal(
            seconds,
        ) + "s"@,
        hours > 0 ==> uptime_of(3_600 * hours + 60 * minutes + seconds) == decimal(hours) + "h "@
            + decimal(minutes) + "m"@,
        days > 0 ==> uptime_of(86_400 * days + 3_600 * hours + 60 * minutes + seconds) == decimal(
            days,
        ) + "d "@ + decimal(hours) + "h"@,
{
    let m = 60 * minutes + seconds;
    assert(m / 60 == minutes && m % 60 == seconds);
    let h = 3_600 * hours + 60 * minutes + seconds;
    assert(h / 3_600 == hours && h / 60 == 60 * hours + minutes);
    let d = 86_400 * days + 3_600 * hours + 60 * minutes + seconds;
    assert(d / 86_400 == days && d / 3_600 == 24 * days + hours);
}

/// A time is valid within the calendar. Only in the last second of a minute may the
/// nanoseconds go beyond a whole second, as they do in a leap second.
pub proof fn law_valid_times_are_in_the_calendar(t: Stamp)
    ensures
        t.wf() ==> -8_334_601_228_800 <= t.secs <= 8_210_266_876_799 && t.nanos < 2_000_000_000,
        -8_334_601_228_800 <= t.secs <= 8_210_266_876_799 && t.nanos < 1_000_000_000 ==> t.wf(),
        -8_334_601_228_800 <= t.secs <= 8_210_266_876_799 && 1_000_000_000 <= t.nanos
            < 2_000_000_000 ==> (t.wf() <==> t.secs as int % 60 == 59),
{
    assert(FIRST_SECOND as int == 60 * -138_910_020_480);
    assert((t.secs - FIRST_SECOND) % 60 == t.secs as int % 60);
}

} // verus!
