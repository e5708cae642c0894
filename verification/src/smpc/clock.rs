//! The real-time clock, in UTC and the Gregorian calendar.

use vstd::prelude::*;

verus! {

/// Whether a year of the Gregorian calendar has a 29th of February.
pub open spec fn is_leap(y: int) -> bool {
    y % 4 == 0 && (y % 100 != 0 || y % 400 == 0)
}

/// How many days a month has.
pub open spec fn days_in_month(y: int, m: int) -> int {
    if m == 2 {
        if is_leap(y) {
            29
        } else {
            28
        }
    } else if m == 4 || m == 6 || m == 9 || m == 11 {
        30
    } else {
        31
    }
}

/// How many days of year `y` come before month `m`.
pub open spec fn days_before_month(y: int, m: int) -> int
    decreases m,
{
    if m <= 1 {
        0
    } else {
        days_before_month(y, m - 1) + days_in_month(y, m - 1)
    }
}

/// How many days lie between 1 January of year 0 and 1 January of year `y`.
pub open spec fn days_before_year(y: int) -> int {
    365 * y + (y + 3) / 4 - (y + 99) / 100 + (y + 399) / 400
}

/// Whether the three numbers name a day.
pub open spec fn is_date(y: int, m: int, d: int) -> bool {
    1 <= m <= 12 && 1 <= d <= days_in_month(y, m)
}

/// The number of a day, 1 January 1970 being day 0.
pub open spec fn day_number(y: int, m: int, d: int) -> int {
    days_before_year(y) - days_before_year(1970) + days_before_month(y, m) + d - 1
}

/// The year, month and day of a day number.
pub fn civil_from_days(z: i64) -> (r: (i64, u8, u8))
    requires
        z <= i64::MAX - 719_468,
    ensures
        is_date(r.0 as int, r.1 as int, r.2 as int),
        day_number(r.0 as int, r.1 as int, r.2 as int) == z,
        z >= 0 ==> 1970 <= r.0 <= 1970 + z / 365,
{
    // Days since 1 March of year 0, so that a leap day ends its year.
    let s: i64 = z + 719_468;
    let era: i64 = if s >= 0 {
        s / 146_097
    } else {
        (s - 146_096) / 146_097
    };
    assert(era == (s as int) / 146_097);
    let doe: u64 = (s - era * 146_097) as u64;
    assert(0 <= doe <= 146_096);
    let yoe: u64 = (doe - doe / 1460 + doe / 36_524 - doe / 146_096) / 365;
    proof {
        year_of_era(doe as int);
    }
    let y: i64 = yoe as i64 + era * 400;
    let doy: u64 = doe - (365 * yoe + yoe / 4 - yoe / 100);
    let mp: u64 = (5 * doy + 2) / 153;
    let d: u8 = (doy - (153 * mp + 2) / 5 + 1) as u8;
    let m: u8 = (if mp < 10 {
        mp + 3
    } else {
        mp - 9
    }) as u8;
    let year: i64 = if m <= 2 {
        y + 1
    } else {
        y
    };
    proof {
        month_of_year(era as int, yoe as int, doy as int);
    }
    (year, m, d)
}

/// The year within a 400-year era, and the day within that year, both counted
/// from March.
proof fn year_of_era(doe: int)
    requires
        0 <= doe <= 146_096,
    ensures
        ({
            let yoe = (doe - doe / 1460 + doe / 36_524 - doe / 146_096) / 365;
            let doy = doe - (365 * yoe + yoe / 4 - yoe / 100);
            &&& 0 <= yoe <= 399
            &&& 0 <= doy <= 365
            &&& doy == 365 ==> is_leap(yoe + 1)
            &&& doe - doe / 1460 >= 0
        }),
{
}

/// The month and the day within a year that begins in March.
proof fn month_of_year(era: int, yoe: int, doy: int)
    requires
        0 <= yoe <= 399,
        0 <= doy <= 365,
        doy == 365 ==> is_leap(yoe + 1),
    ensures
        ({
            let mp = (5 * doy + 2) / 153;
            let d = doy - (153 * mp + 2) / 5 + 1;
            let m = if mp < 10 { mp + 3 } else { mp - 9 };
            let y = yoe + era * 400;
            let year = if m <= 2 { y + 1 } else { y };
            &&& 0 <= mp <= 11
            &&& doy - (153 * mp + 2) / 5 >= 0
            &&& is_date(year, m, d)
            &&& day_number(year, m, d) == era * 146_097 + 365 * yoe + yoe / 4 - yoe / 100 + doy
                - 719_468
        }),
{
    let mp = (5 * doy + 2) / 153;
    let m = if mp < 10 { mp + 3 } else { mp - 9 };
    let y = yoe + era * 400;
    let year = if m <= 2 { y + 1 } else { y };
    let k = if m <= 2 { yoe + 1 } else { yoe };
    month_starts(year);
    era_shifts_year(era, k);
    year_from_march(yoe);
    month_from_march(doy);
}

/// The calendar repeats every 400 years.
proof fn era_shifts_year(era: int, k: int)
    ensures
        days_before_year(k + era * 400) == days_before_year(k) + era * 146_097,
        is_leap(k + era * 400) == is_leap(k),
{
    let n = k + era * 400;
    assert((n + 3) / 4 == (k + 3) / 4 + era * 100) by {
        shift_quotient(k + 3, era * 100, 4);
    }
    assert((n + 99) / 100 == (k + 99) / 100 + era * 4) by {
        shift_quotient(k + 99, era * 4, 100);
    }
    assert((n + 399) / 400 == (k + 399) / 400 + era) by {
        shift_quotient(k + 399, era, 400);
    }
    shift_quotient(k, era * 100, 4);
    shift_quotient(k, era * 4, 100);
    shift_quotient(k, era, 400);
}

proof fn shift_quotient(a: int, q: int, b: int)
    requires
        b > 0,
    ensures
        (a + q * b) / b == a / b + q,
        (a + q * b) % b == a % b,
{
    vstd::arithmetic::div_mod::lemma_hoist_over_denominator(a, q, b as nat);
    vstd::arithmetic::div_mod::lemma_mod_multiples_vanish(q, a, b);
    assert(b * q + a == a + q * b) by (nonlinear_arith);
}

/// Years counted from January against years counted from March.
proof fn year_from_march(yoe: int)
    requires
        0 <= yoe <= 399,
    ensures
        days_before_year(yoe + 1) == 365 * yoe + yoe / 4 - yoe / 100 + 366,
        days_before_year(yoe) + days_in_month(yoe, 2) == 365 * yoe + yoe / 4 - yoe / 100 + 29,
{
}

/// Where the months begin in a year that begins in March.
proof fn month_from_march(doy: int)
    requires
        0 <= doy <= 365,
    ensures
        ({
            let mp = (5 * doy + 2) / 153;
            let first = (153 * mp + 2) / 5;
            &&& 0 <= mp <= 11
            &&& first <= doy
            &&& mp < 11 ==> doy < (153 * (mp + 1) + 2) / 5
            &&& first == (if mp == 0 { 0int } else if mp == 1 { 31 } else if mp == 2 { 61 }
                else if mp == 3 { 92 } else if mp == 4 { 122 } else if mp == 5 { 153 }
                else if mp == 6 { 184 } else if mp == 7 { 214 } else if mp == 8 { 245 }
                else if mp == 9 { 275 } else if mp == 10 { 306 } else { 337 })
        }),
{
}

/// Where the months of a year begin.
proof fn month_starts(y: int)
    ensures
        days_before_month(y, 1) == 0,
        days_before_month(y, 2) == 31,
        days_before_month(y, 3) == 31 + days_in_month(y, 2),
        days_before_month(y, 4) == 62 + days_in_month(y, 2),
        days_before_month(y, 5) == 92 + days_in_month(y, 2),
        days_before_month(y, 6) == 123 + days_in_month(y, 2),
        days_before_month(y, 7) == 153 + days_in_month(y, 2),
        days_before_month(y, 8) == 184 + days_in_month(y, 2),
        days_before_month(y, 9) == 215 + days_in_month(y, 2),
        days_before_month(y, 10) == 245 + days_in_month(y, 2),
        days_before_month(y, 11) == 276 + days_in_month(y, 2),
        days_before_month(y, 12) == 306 + days_in_month(y, 2),
{
    reveal_with_fuel(days_before_month, 13);
}

/// Later dates have higher numbers, so no two dates share one.
pub proof fn day_numbers_are_ordered(y1: int, m1: int, d1: int, y2: int, m2: int, d2: int)
    requires
        is_date(y1, m1, d1),
        is_date(y2, m2, d2),
        y1 < y2 || (y1 == y2 && (m1 < m2 || (m1 == m2 && d1 < d2))),
    ensures
        day_number(y1, m1, d1) < day_number(y2, m2, d2),
{
    month_starts(y1);
    month_starts(y2);
}

/// Encode a number up to 99 as two decimal digits, one per nibble.
pub open spec fn bcd_of(v: u8) -> u8 {
    ((v / 10 % 16) * 16 + v % 10) as u8
}

/// Encode `0..=99` as two BCD nibbles.
pub fn bcd(v: u8) -> (r: u8)
    ensures
        r == bcd_of(v),
{
    (v / 10 % 16) * 16 + v % 10
}

/// The digits of a number up to 99 can be read back from its nibbles.
pub proof fn bcd_round_trip(v: u8)
    requires
        v <= 99,
    ensures
        bcd_of(v) / 16 * 10 + bcd_of(v) % 16 == v,
        bcd_of(v) / 16 <= 9,
        bcd_of(v) % 16 <= 9,
{
}

/// Where the clock takes the time from.
#[derive(Debug, Clone, Copy, PartialEq, Eq, Structural)]
pub enum ClockSource {
    /// The host's clock, as the driving program last reported it.
    HostWallClock,
    /// A fixed number of seconds since 1 January 1970.
    Fixed(u64),
}

impl Default for ClockSource {
    fn default() -> (r: Self)
        ensures
            r == ClockSource::HostWallClock,
    {
        ClockSource::HostWallClock
    }
}

/// The seconds since 1 January 1970 that a clock shows.
pub open spec fn clock_seconds(clock: ClockSource, host_seconds: u64) -> u64 {
    match clock {
        ClockSource::HostWallClock => host_seconds,
        ClockSource::Fixed(secs) => secs,
    }
}

/// Whether a broken-down time is the given second. Day 0 was a Thursday, and
/// Sunday is weekday 0.
pub open spec fn shows(t: (u64, u8, u8, u8, u8, u8, u8), seconds: int) -> bool {
    &&& is_date(t.0 as int, t.1 as int, t.2 as int)
    &&& t.3 < 24
    &&& t.4 < 60
    &&& t.5 < 60
    &&& seconds == day_number(t.0 as int, t.1 as int, t.2 as int) * 86_400 + t.3 * 3600 + t.4
        * 60 + t.5
    &&& t.6 == (day_number(t.0 as int, t.1 as int, t.2 as int) + 4) % 7
}

/// The one broken-down time that is the given second.
pub open spec fn utc_time(seconds: int) -> (u64, u8, u8, u8, u8, u8, u8) {
    choose|t: (u64, u8, u8, u8, u8, u8, u8)| shows(t, seconds)
}

/// No two broken-down times are the same second.
pub proof fn time_is_unique(
    t: (u64, u8, u8, u8, u8, u8, u8),
    u: (u64, u8, u8, u8, u8, u8, u8),
    seconds: int,
)
    requires
        shows(t, seconds),
        shows(u, seconds),
    ensures
        t == u,
{
    let nt = day_number(t.0 as int, t.1 as int, t.2 as int);
    let nu = day_number(u.0 as int, u.1 as int, u.2 as int);
    assert(nt == nu);
    if t.0 < u.0 || (t.0 == u.0 && (t.1 < u.1 || (t.1 == u.1 && t.2 < u.2))) {
        day_numbers_are_ordered(
            t.0 as int,
            t.1 as int,
            t.2 as int,
            u.0 as int,
            u.1 as int,
            u.2 as int,
        );
    }
    if u.0 < t.0 || (t.0 == u.0 && (u.1 < t.1 || (t.1 == u.1 && u.2 < t.2))) {
        day_numbers_are_ordered(
            u.0 as int,
            u.1 as int,
            u.2 as int,
            t.0 as int,
            t.1 as int,
            t.2 as int,
        );
    }
}

impl ClockSource {
    /// The time as `(year, month, day, hour, minute, second, weekday)` in UTC,
    /// with months from 1 and Sunday as weekday 0.
    pub fn now_utc(&self, host_seconds: u64) -> (r: (u64, u8, u8, u8, u8, u8, u8))
        ensures
            shows(r, clock_seconds(*self, host_seconds) as int),
            r == utc_time(clock_seconds(*self, host_seconds) as int),
    {
        let unix_seconds: u64 = match *self {
            ClockSource::Fixed(secs) => secs,
            ClockSource::HostWallClock => host_seconds,
        };
        let days: i64 = (unix_seconds / 86_400) as i64;
        let secs_of_day: u64 = unix_seconds % 86_400;
        let hour: u8 = (secs_of_day / 3600) as u8;
        let minute: u8 = ((secs_of_day % 3600) / 60) as u8;
        let second: u8 = (secs_of_day % 60) as u8;
        let weekday: u8 = ((days + 4) % 7) as u8;
        let (year, month, day): (i64, u8, u8) = civil_from_days(days);
        let r: (u64, u8, u8, u8, u8, u8, u8) = (
            year as u64,
            month,
            day,
            hour,
            minute,
            second,
            weekday,
        );
        proof {
            assert(shows(r, unix_seconds as int));
            time_is_unique(utc_time(unix_seconds as int), r, unix_seconds as int);
        }
        r
    }
}

/// The first of January 1970 was a Thursday, the day after a day is the next weekday, and weeks have
/// seven days.
pub proof fn weekdays_go_round(
    t: (u64, u8, u8, u8, u8, u8, u8),
    u: (u64, u8, u8, u8, u8, u8, u8),
    seconds: int,
    days: int,
)
    requires
        0 <= seconds,
        0 <= days,
        shows(t, seconds),
        shows(u, seconds + days * 86_400),
    ensures
        seconds < 86_400 ==> t.6 == 4,
        days == 1 ==> u.6 == (t.6 + 1) % 7,
        days == 7 ==> u.6 == t.6,
        u.3 == t.3 && u.4 == t.4 && u.5 == t.5,
        t.6 < 7,
{
    let a = day_number(t.0 as int, t.1 as int, t.2 as int);
    let b = day_number(u.0 as int, u.1 as int, u.2 as int);
    assert(a == seconds / 86_400);
    assert(b == a + days);
}

/// The calendar: 365 days in a year, and one more every fourth one, but for the hundreds that are no
/// four hundreds.
pub proof fn years_have_their_days(y: int)
    ensures
        day_number(y + 1, 1, 1) - day_number(y, 1, 1) == if y % 400 == 0 || (y % 4 == 0 && y % 100
            != 0) {
            366int
        } else {
            365
        },
        day_number(1970, 1, 1) == 0,
        is_date(y, 2, 29) <==> y % 400 == 0 || (y % 4 == 0 && y % 100 != 0),
        is_date(y, 4, 30) && !is_date(y, 4, 31) && is_date(y, 1, 31) && is_date(y, 12, 31),
{
    let q = y / 4;
    assert((y + 4) / 4 == q + 1);
    assert((y + 3) / 4 == if y % 4 == 0 {
        q
    } else {
        q + 1
    });
    let c = y / 100;
    assert((y + 99) / 100 == if y % 100 == 0 {
        c
    } else {
        c + 1
    });
    assert((y + 100) / 100 == c + 1);
    let k = y / 400;
    assert((y + 399) / 400 == if y % 400 == 0 {
        k
    } else {
        k + 1
    });
    assert((y + 400) / 400 == k + 1);
}

} // verus!
