//! Civil calendar arithmetic for the hardware clock: conversion between
//! broken-down Gregorian date-and-time fields and Unix instants.

use vstd::prelude::*;

verus! {

/// Seconds in one day.
pub const SECS_PER_DAY: u64 = 86400;

/// Days from 1900-01-01 to the Unix epoch 1970-01-01.
pub const DAYS_TO_UNIX_EPOCH: u64 = 25567;

/// The first instant the conversion covers: 1900-01-01T00:00:00Z.
pub const MIN_UNIX_TIME: i64 = -2208988800;

/// The first instant past the covered range: 2100-01-01T00:00:00Z.
pub const MAX_UNIX_TIME: i64 = 4102444800;

/// A Gregorian leap year.
pub open spec fn is_leap_year(y: int) -> bool {
    y % 4 == 0 && (y % 100 != 0 || y % 400 == 0)
}

/// Days in the year `y`.
pub open spec fn days_in_year(y: int) -> int {
    if is_leap_year(y) {
        366
    } else {
        365
    }
}

/// Days in month `m` (1-based) of year `y`.
pub open spec fn days_in_month(y: int, m: int) -> int {
    if m == 2 {
        if is_leap_year(y) {
            29
        } else {
            28
        }
    } else if m == 4 || m == 6 || m == 9 || m == 11 {
        30
    } else {
        31
    }
}

/// Days of year `y` that lie before month `m` (1-based).
pub open spec fn days_before_month(y: int, m: int) -> int {
    let l: int = if is_leap_year(y) {
        1
    } else {
        0
    };
    if m <= 1 {
        0
    } else if m == 2 {
        31
    } else if m == 3 {
        59 + l
    } else if m == 4 {
        90 + l
    } else if m == 5 {
        120 + l
    } else if m == 6 {
        151 + l
    } else if m == 7 {
        181 + l
    } else if m == 8 {
        212 + l
    } else if m == 9 {
        243 + l
    } else if m == 10 {
        273 + l
    } else if m == 11 {
        304 + l
    } else {
        334 + l
    }
}

/// Days that lie before year `y`, counted from 1900-01-01.
pub open spec fn days_before_year(y: int) -> int
    recommends
        y >= 1900,
    decreases y - 1900,
{
    if y <= 1900 {
        0
    } else {
        days_before_year(y - 1) + days_in_year(y - 1)
    }
}

/// The day number of a date, with 1900-01-01 as day zero.
pub open spec fn day_number(y: int, m: int, d: int) -> int {
    days_before_year(y) + days_before_month(y, m) + (d - 1)
}

/// Whether broken-down fields name a calendar date and time the
/// conversion covers: a real Gregorian date in [1900, 2100) and a time
/// of day without a leap second.
pub open spec fn valid_civil(y: int, m: int, d: int, h: int, mi: int, s: int) -> bool {
    &&& 1900 <= y < 2100
    &&& 1 <= m <= 12
    &&& 1 <= d <= days_in_month(y, m)
    &&& 0 <= h < 24
    &&& 0 <= mi < 60
    &&& 0 <= s < 60
}

/// The Unix instant of broken-down fields.
pub open spec fn spec_unix_time(y: int, m: int, d: int, h: int, mi: int, s: int) -> int {
    (day_number(y, m, d) - DAYS_TO_UNIX_EPOCH) * (SECS_PER_DAY as int) + h * 3600 + mi * 60 + s
}

/// A later year never has a smaller day count, and each year adds at
/// least 365 days.
proof fn lemma_days_before_year_monotone(y1: int, y2: int)
    requires
        1900 <= y1 <= y2,
    ensures
        days_before_year(y1) + 365 * (y2 - y1) <= days_before_year(y2),
    decreases y2 - y1,
{
    if y1 < y2 {
        lemma_days_before_year_monotone(y1, y2 - 1);
    }
}

/// Within a year, every date's offset lies below the year's length.
proof fn lemma_day_offset_in_year(y: int, m: int, d: int)
    requires
        1 <= m <= 12,
        1 <= d <= days_in_month(y, m),
    ensures
        0 <= days_before_month(y, m) + (d - 1) < days_in_year(y),
{
}

/// Distinct valid field tuples name distinct instants: the conversion
/// from broken-down time to an instant is injective, so a round trip
/// through the instant reproduces the fields exactly.
pub proof fn lemma_unix_time_injective(
    y1: int, m1: int, d1: int, h1: int, mi1: int, s1: int,
    y2: int, m2: int, d2: int, h2: int, mi2: int, s2: int,
)
    requires
        valid_civil(y1, m1, d1, h1, mi1, s1),
        valid_civil(y2, m2, d2, h2, mi2, s2),
        spec_unix_time(y1, m1, d1, h1, mi1, s1) == spec_unix_time(y2, m2, d2, h2, mi2, s2),
    ensures
        y1 == y2 && m1 == m2 && d1 == d2 && h1 == h2 && mi1 == mi2 && s1 == s2,
{
    let n1 = day_number(y1, m1, d1);
    let n2 = day_number(y2, m2, d2);
    let t1 = h1 * 3600 + mi1 * 60 + s1;
    let t2 = h2 * 3600 + mi2 * 60 + s2;
    assert(0 <= t1 < 86400);
    assert(0 <= t2 < 86400);
    assert((n1 - n2) * 86400 == t2 - t1) by (nonlinear_arith)
        requires
            (n1 - 25567) * 86400 + t1 == (n2 - 25567) * 86400 + t2,
    ;
    assert(n1 == n2) by (nonlinear_arith)
        requires
            (n1 - n2) * 86400 == t2 - t1,
            -86400 < t2 - t1 < 86400,
    ;
    // Same day number forces the same year.
    lemma_day_offset_in_year(y1, m1, d1);
    lemma_day_offset_in_year(y2, m2, d2);
    if y1 < y2 {
        lemma_days_before_year_monotone(y1 + 1, y2);
        assert(days_before_year(y1 + 1) == days_before_year(y1) + days_in_year(y1));
        assert(false);
    }
    if y2 < y1 {
        lemma_days_before_year_monotone(y2 + 1, y1);
        assert(days_before_year(y2 + 1) == days_before_year(y2) + days_in_year(y2));
        assert(false);
    }
    // Same offset within the year forces the same month and day.
    if m1 < m2 {
        assert(days_before_month(y1, m1) + (d1 - 1) < days_before_month(y1, m1 + 1));
        assert(days_before_month(y1, m1 + 1) <= days_before_month(y2, m2));
        assert(false);
    }
    if m2 < m1 {
        assert(days_before_month(y2, m2) + (d2 - 1) < days_before_month(y2, m2 + 1));
        assert(days_before_month(y2, m2 + 1) <= days_before_month(y1, m1));
        assert(false);
    }
    // Same second of the day forces the same clock fields.
    assert(h1 == h2 && mi1 == mi2 && s1 == s2) by (nonlinear_arith)
        requires
            h1 * 3600 + mi1 * 60 + s1 == h2 * 3600 + mi2 * 60 + s2,
            0 <= h1 < 24 && 0 <= mi1 < 60 && 0 <= s1 < 60,
            0 <= h2 < 24 && 0 <= mi2 < 60 && 0 <= s2 < 60,
    ;
}

/// Days in month `m` of year `y`, as the calendar defines them.
pub fn days_in_month_of(y: i32, m: u8) -> (r: u8)
    requires
        1900 <= y < 2100,
        1 <= m <= 12,
    ensures
        r == days_in_month(y as int, m as int),
{
    let leap: bool = y % 4 == 0 && (y % 100 != 0 || y % 400 == 0);
    if m == 2 {
        if leap {
            29
        } else {
            28
        }
    } else if m == 4 || m == 6 || m == 9 || m == 11 {
        30
    } else {
        31
    }
}

/// Days of year `y` before month `m`.
fn days_before_month_of(y: i32, m: u8) -> (r: u16)
    requires
        1900 <= y < 2100,
        1 <= m <= 12,
    ensures
        r == days_before_month(y as int, m as int),
{
    let leap: bool = y % 4 == 0 && (y % 100 != 0 || y % 400 == 0);
    let l: u16 = if leap {
        1
    } else {
        0
    };
    if m == 1 {
        0
    } else if m == 2 {
        31
    } else if m == 3 {
        59 + l
    } else if m == 4 {
        90 + l
    } else if m == 5 {
        120 + l
    } else if m == 6 {
        151 + l
    } else if m == 7 {
        181 + l
    } else if m == 8 {
        212 + l
    } else if m == 9 {
        243 + l
    } else if m == 10 {
        273 + l
    } else if m == 11 {
        304 + l
    } else {
        334 + l
    }
}

/// The Unix instant of broken-down fields, or nothing when the fields
/// name no covered date and time.
pub fn unix_from_civil(y: i32, m: u8, d: u8, h: u8, mi: u8, s: u8) -> (r: Option<i64>)
    ensures
        r is Some <==> valid_civil(y as int, m as int, d as int, h as int, mi as int, s as int),
        r matches Some(t) ==> t == spec_unix_time(
            y as int, m as int, d as int, h as int, mi as int, s as int),
{
    if !(1900 <= y && y < 2100) || m < 1 || m > 12 {
        return None;
    }
    if d < 1 || d > days_in_month_of(y, m) || h >= 24 || mi >= 60 || s >= 60 {
        return None;
    }
    let mut days: u64 = 0;
    let mut yy: i32 = 1900;
    while yy < y
        invariant
            1900 <= yy <= y < 2100,
            days == days_before_year(yy as int),
            days <= 366 * (yy - 1900),
        decreases y - yy,
    {
        let leap: bool = yy % 4 == 0 && (yy % 100 != 0 || yy % 400 == 0);
        days = days + if leap {
            366
        } else {
            365
        };
        yy = yy + 1;
    }
    let dn: u64 = days + days_before_month_of(y, m) as u64 + (d as u64 - 1);
    let tod: u64 = h as u64 * 3600 + mi as u64 * 60 + s as u64;
    proof {
        lemma_day_offset_in_year(y as int, m as int, d as int);
        lemma_days_before_year_monotone(1900, y as int);
        assert(days_before_year(y as int) <= 366 * (y - 1900) < 73200) by {
            lemma_days_before_year_upper(y as int);
        }
    }
    let t: i64 = MIN_UNIX_TIME + (dn * 86400 + tod) as i64;
    Some(t)
}

/// The day count of the first half-century.
proof fn lemma_days_before_1950()
    ensures
        days_before_year(1950) == 18262,
{
    reveal_with_fuel(days_before_year, 51);
}

/// The day count up to the century's turn.
proof fn lemma_days_before_2000()
    ensures
        days_before_year(2000) == 36524,
{
    lemma_days_before_1950();
    reveal_with_fuel(days_before_year, 51);
}

/// The day count up to the next half-century.
proof fn lemma_days_before_2050()
    ensures
        days_before_year(2050) == 54787,
{
    lemma_days_before_2000();
    reveal_with_fuel(days_before_year, 51);
}

/// The day count of the full covered span.
proof fn lemma_days_before_2100()
    ensures
        days_before_year(2100) == 73049,
{
    lemma_days_before_2050();
    reveal_with_fuel(days_before_year, 51);
}

/// Each year from 1900 on adds at most 366 days.
proof fn lemma_days_before_year_upper(y: int)
    requires
        1900 <= y,
    ensures
        days_before_year(y) <= 366 * (y - 1900),
    decreases y - 1900,
{
    if y > 1900 {
        lemma_days_before_year_upper(y - 1);
    }
}

/// The broken-down fields of a Unix instant, or nothing when the
/// instant lies outside the covered range.
pub fn civil_from_unix(t: i64) -> (r: Option<(i32, u8, u8, u8, u8, u8)>)
    ensures
        r is Some <==> MIN_UNIX_TIME <= t < MAX_UNIX_TIME,
        r matches Some((y, m, d, h, mi, s)) ==> {
            &&& valid_civil(y as int, m as int, d as int, h as int, mi as int, s as int)
            &&& spec_unix_time(y as int, m as int, d as int, h as int, mi as int, s as int) == t
        },
{
    if t < MIN_UNIX_TIME || t >= MAX_UNIX_TIME {
        return None;
    }
    let u: u64 = (t - MIN_UNIX_TIME) as u64;
    let mut rem: u64 = u / 86400;
    let tod: u64 = u % 86400;
    proof {
        assert(u == 86400 * (u as int / 86400) + u as int % 86400) by {
            vstd::arithmetic::div_mod::lemma_fundamental_div_mod(u as int, 86400);
        }
        assert(rem < 73049);
        lemma_days_before_2100();
    }
    let ghost dn = rem as int;
    let mut y: i32 = 1900;
    loop
        invariant
            1900 <= y < 2100,
            days_before_year(y as int) + rem == dn,
            dn < 73049,
            days_before_year(2100) == 73049,
        ensures
            1900 <= y < 2100,
            days_before_year(y as int) + rem == dn,
            rem < days_in_year(y as int),
        decreases rem,
    {
        let leap: bool = y % 4 == 0 && (y % 100 != 0 || y % 400 == 0);
        let diy: u64 = if leap {
            366
        } else {
            365
        };
        if rem < diy {
            break;
        }
        proof {
            if y as int + 1 >= 2100 {
                lemma_days_before_year_monotone(2100, y as int + 1);
                assert(false);
            }
        }
        rem = rem - diy;
        y = y + 1;
    }
    let mut m: u8 = 1;
    let ghost yrem = rem as int;
    while rem >= days_in_month_of(y, m) as u64
        invariant
            1900 <= y < 2100,
            1 <= m <= 12,
            days_before_month(y as int, m as int) + rem == yrem,
            yrem < days_in_year(y as int),
            rem < days_in_year(y as int),
        decreases 12 - m,
    {
        proof {
            if m as int + 1 > 12 {
                assert(days_before_month(y as int, 12) + days_in_month(y as int, 12)
                    == days_in_year(y as int));
                assert(false);
            }
        }
        rem = rem - days_in_month_of(y, m) as u64;
        m = m + 1;
    }
    let d: u8 = (rem + 1) as u8;
    let h: u8 = (tod / 3600) as u8;
    let mi: u8 = ((tod % 3600) / 60) as u8;
    let s: u8 = (tod % 60) as u8;
    proof {
        vstd::arithmetic::div_mod::lemma_fundamental_div_mod(tod as int, 3600);
        vstd::arithmetic::div_mod::lemma_fundamental_div_mod(tod as int % 3600, 60);
        assert(tod as int % 3600 % 60 == tod as int % 60) by {
            vstd::arithmetic::div_mod::lemma_mod_mod(tod as int, 60, 60);
        }
        assert(h as int * 3600 + mi as int * 60 + s as int == tod);
        assert(spec_unix_time(y as int, m as int, d as int, h as int, mi as int, s as int) == t);
    }
    Some((y, m, d, h, mi, s))
}

} // verus!
