//! Dates of the Gregorian calendar, counted in days from 1970-01-01.

use vstd::prelude::*;
use crate::text::{cat3, dec, decimal, repeat, repeated};

verus! {

/// A year of 366 days.
pub open spec fn is_leap(y: int) -> bool {
    y % 4 == 0 && (y % 100 != 0 || y % 400 == 0)
}

/// The days of a month.
pub open spec fn days_in_month(y: int, m: int) -> int {
    if m == 2 {
        if is_leap(y) {
            29
        } else {
            28
        }
    } else if m == 4 || m == 6 || m == 9 || m == 11 {
        30
    } else {
        31
    }
}

/// The days of a year before a month.
pub open spec fn days_before_month(y: int, m: int) -> int
    decreases m,
{
    if m <= 1 {
        0
    } else {
        days_before_month(y, m - 1) + days_in_month(y, m - 1)
    }
}

/// The days from 0001-01-01 to the first day of a year.
pub open spec fn days_before_year(y: int) -> int {
    365 * (y - 1) + (y - 1) / 4 - (y - 1) / 100 + (y - 1) / 400
}

/// A date that there is.
pub open spec fn is_date(y: int, m: int, d: int) -> bool {
    1 <= m <= 12 && 1 <= d <= days_in_month(y, m)
}

/// The days from 1970-01-01 to a date.
pub open spec fn day_number(y: int, m: int, d: int) -> int {
    days_before_year(y) + days_before_month(y, m) + d - 1 - 719162
}

/// Every year is as long as it should be.
pub proof fn year_length(y: int)
    ensures
        days_before_year(y + 1) == days_before_year(y) + (if is_leap(y) {
            366int
        } else {
            365
        }),
{
}

proof fn months_before(y: int)
    ensures
        days_before_month(y, 1) == 0,
        days_before_month(y, 2) == 31,
        days_before_month(y, 3) == 31 + days_in_month(y, 2),
        days_before_month(y, 4) == 62 + days_in_month(y, 2),
        days_before_month(y, 5) == 92 + days_in_month(y, 2),
        days_before_month(y, 6) == 123 + days_in_month(y, 2),
        days_before_month(y, 7) == 153 + days_in_month(y, 2),
        days_before_month(y, 8) == 184 + days_in_month(y, 2),
        days_before_month(y, 9) == 215 + days_in_month(y, 2),
        days_before_month(y, 10) == 245 + days_in_month(y, 2),
        days_before_month(y, 11) == 276 + days_in_month(y, 2),
        days_before_month(y, 12) == 306 + days_in_month(y, 2),
        days_before_month(y, 13) == 337 + days_in_month(y, 2),
{
    reveal_with_fuel(days_before_month, 14);
}

/// The year of an era that holds a day of it, where years begin in March.
proof fn year_of_era(doe: int, yoe: int)
    requires
        0 <= doe <= 146096,
        yoe == (doe - doe / 1460 + doe / 36524 - doe / 146096) / 365,
    ensures
        0 <= yoe <= 399,
        0 <= doe - (365 * yoe + yoe / 4 - yoe / 100) <= 365,
        doe - (365 * yoe + yoe / 4 - yoe / 100) == 365 ==> is_leap(yoe + 1),
{
}

/// The month of a day of a year that begins in March, and the day of that
/// month.
proof fn month_of_year(doy: int, mp: int, d: int)
    requires
        0 <= doy <= 365,
        mp == (5 * doy + 2) / 153,
        d == doy - (153 * mp + 2) / 5 + 1,
    ensures
        0 <= mp <= 11,
        1 <= d <= 31,
        mp == 1 || mp == 3 || mp == 6 || mp == 8 ==> d <= 30,
        mp == 11 ==> d <= 29,
        mp == 11 && d == 29 ==> doy == 365,
        mp == 0 ==> (153 * mp + 2) / 5 == 0,
        mp == 1 ==> (153 * mp + 2) / 5 == 31,
        mp == 2 ==> (153 * mp + 2) / 5 == 61,
        mp == 3 ==> (153 * mp + 2) / 5 == 92,
        mp == 4 ==> (153 * mp + 2) / 5 == 122,
        mp == 5 ==> (153 * mp + 2) / 5 == 153,
        mp == 6 ==> (153 * mp + 2) / 5 == 184,
        mp == 7 ==> (153 * mp + 2) / 5 == 214,
        mp == 8 ==> (153 * mp + 2) / 5 == 245,
        mp == 9 ==> (153 * mp + 2) / 5 == 275,
        mp == 10 ==> (153 * mp + 2) / 5 == 306,
        mp == 11 ==> (153 * mp + 2) / 5 == 337,
{
}

/// The days from 0000-03-01 to the first of March of a year.
spec fn march_first(y: int) -> int {
    365 * y + y / 4 - y / 100 + y / 400
}

proof fn march_first_in_year(y: int)
    ensures
        days_before_year(y) + 59 + (if is_leap(y) {
            1int
        } else {
            0
        }) == march_first(y) - 306,
        days_before_year(y + 1) == march_first(y),
{
    year_length(y);
}

proof fn years_of_era(era: int, yoe: int)
    requires
        0 <= yoe <= 399,
    ensures
        march_first(yoe + era * 400) == era * 146097 + 365 * yoe + yoe / 4 - yoe / 100,
        is_leap(yoe + era * 400 + 1) == is_leap(yoe + 1),
{
    let y = yoe + era * 400;
    assert(y / 4 == era * 100 + yoe / 4);
    assert(y / 100 == era * 4 + yoe / 100);
    assert(y / 400 == era);
    assert((y + 1) % 4 == (yoe + 1) % 4);
    assert((y + 1) % 100 == (yoe + 1) % 100);
    assert((y + 1) % 400 == (yoe + 1) % 400);
}

proof fn date_in_march_year(year: int, doy: int, mp: int, d: int)
    requires
        0 <= doy <= 365,
        doy == 365 ==> is_leap(year + 1),
        mp == (5 * doy + 2) / 153,
        d == doy - (153 * mp + 2) / 5 + 1,
    ensures
        0 <= mp <= 11,
        mp < 10 ==> is_date(year, mp + 3, d) && day_number(year, mp + 3, d) == march_first(year)
            + doy - 719468,
        mp >= 10 ==> is_date(year + 1, mp - 9, d) && day_number(year + 1, mp - 9, d)
            == march_first(year) + doy - 719468,
{
    month_of_year(doy, mp, d);
    march_first_in_year(year);
    if mp < 10 {
        months_before(year);
    } else {
        months_before(year + 1);
    }
}

/// What a day is in the calendar.
pub open spec fn civil(days: int) -> (int, int, int) {
    choose|date: (int, int, int)|
        is_date(date.0, date.1, date.2) && #[trigger] day_number(date.0, date.1, date.2) == days
}

proof fn years_grow(a: int, b: int)
    requires
        a < b,
    ensures
        days_before_year(a + 1) <= days_before_year(b),
    decreases b - a,
{
    if a + 1 < b {
        years_grow(a + 1, b);
        year_length(a + 1);
    }
}

proof fn day_within_year(y: int, m: int, d: int)
    requires
        is_date(y, m, d),
    ensures
        days_before_year(y) <= day_number(y, m, d) + 719162 < days_before_year(y + 1),
{
    months_before(y);
    year_length(y);
}

/// No two dates are the same day.
pub proof fn dates_are_distinct(a: (int, int, int), b: (int, int, int))
    requires
        is_date(a.0, a.1, a.2),
        is_date(b.0, b.1, b.2),
        day_number(a.0, a.1, a.2) == day_number(b.0, b.1, b.2),
    ensures
        a == b,
{
    day_within_year(a.0, a.1, a.2);
    day_within_year(b.0, b.1, b.2);
    if a.0 < b.0 {
        years_grow(a.0, b.0);
    } else if b.0 < a.0 {
        years_grow(b.0, a.0);
    }
    months_before(a.0);
}

proof fn civil_is(days: int, y: int, m: int, d: int)
    requires
        is_date(y, m, d),
        day_number(y, m, d) == days,
    ensures
        civil(days) == (y, m, d),
{
    let date = (y, m, d);
    assert(is_date(date.0, date.1, date.2) && day_number(date.0, date.1, date.2) == days);
    let c = civil(days);
    dates_are_distinct(c, date);
}

/// The date of a day, counted from 1970-01-01. A year that does not fit is
/// cut to its lower 32 bits.
pub fn civil_from_days(days: i64) -> (r: (i32, u32, u32))
    requires
        days <= i64::MAX - 719468,
    ensures
        ({
            let (y, m, d) = civil(days as int);
            &&& is_date(y, m, d)
            &&& day_number(y, m, d) == days
            &&& r.0 == (y as i64) as i32
            &&& r.1 == m
            &&& r.2 == d
        }),
{
    let z: i64 = days + 719_468;
    let era: i64 = if z >= 0 {
        z / 146_097
    } else {
        -((-(z + 1)) / 146_097) - 1
    };
    let doe: i64 = z - era * 146_097;
    let yoe: i64 = (doe - doe / 1_460 + doe / 36_524 - doe / 146_096) / 365;
    proof {
        year_of_era(doe as int, yoe as int);
    }
    let doy: i64 = doe - (365 * yoe + yoe / 4 - yoe / 100);
    let mp: i64 = (5 * doy + 2) / 153;
    proof {
        month_of_year(doy as int, mp as int, doy - (153 * mp + 2) / 5 + 1);
    }
    let d: i64 = doy - (153 * mp + 2) / 5 + 1;
    let m: i64 = if mp < 10 {
        mp + 3
    } else {
        mp - 9
    };
    let year: i64 = yoe + era * 400 + if m <= 2 {
        1
    } else {
        0
    };
    proof {
        years_of_era(era as int, yoe as int);
        date_in_march_year(yoe + era * 400, doy as int, mp as int, d as int);
        civil_is(days as int, year as int, m as int, d as int);
    }
    (
        #[verifier::truncate]
        (year as i32),
        m as u32,
        d as u32,
    )
}

/// A moment in the calendar, in universal time.
pub struct GmTime {
    pub year: i32,
    pub month: u32,
    pub day: u32,
    pub hour: u32,
    pub minute: u32,
    pub second: u32,
}

/// The moment that lies `timestamp` seconds from the start of 1970.
pub open spec fn is_moment(t: GmTime, timestamp: int) -> bool {
    let (y, m, d) = civil(timestamp / 86400);
    &&& is_date(y, m, d)
    &&& day_number(y, m, d) * 86400 + t.hour * 3600 + t.minute * 60 + t.second == timestamp
    &&& t.year == (y as i64) as i32
    &&& t.month == m
    &&& t.day == d
    &&& t.hour < 24
    &&& t.minute < 60
    &&& t.second < 60
}

/// The moment that lies `timestamp` seconds from the start of 1970.
pub fn chrono_like_gmtime(timestamp: i64) -> (r: GmTime)
    ensures
        is_moment(r, timestamp as int),
{
    let days: i64 = if timestamp >= 0 {
        timestamp / 86_400
    } else {
        -((-(timestamp + 1)) / 86_400) - 1
    };
    let secs_of_day: i64 = if timestamp >= 0 {
        timestamp % 86_400
    } else {
        86_399 - (-(timestamp + 1)) % 86_400
    };
    assert(secs_of_day == timestamp - days * 86_400);
    assert(days == timestamp as int / 86400);
    let (year, month, day) = civil_from_days(days);
    GmTime {
        year,
        month,
        day,
        hour: (secs_of_day / 3600) as u32,
        minute: ((secs_of_day % 3600) / 60) as u32,
        second: (secs_of_day % 60) as u32,
    }
}

/// A number with zeros in front, up to `width` characters.
pub open spec fn zero_filled(n: int, width: int) -> Seq<char> {
    let digits = dec(if n < 0 {
        (-n) as nat
    } else {
        n as nat
    });
    let sign = if n < 0 {
        "-"@
    } else {
        Seq::empty()
    };
    let missing = width - digits.len() - sign.len();
    sign + repeated("0"@, if missing > 0 {
        missing as nat
    } else {
        0
    }) + digits
}

fn zero_fill(n: i64, width: usize) -> (r: String)
    requires
        n > i64::MIN,
    ensures
        r@ == zero_filled(n as int, width as int),
{
    proof {
        reveal_strlit("-");
    }
    let digits = decimal(
        if n < 0 {
            (-n) as u64
        } else {
            n as u64
        },
    );
    let sign = if n < 0 {
        "-".to_owned()
    } else {
        String::new()
    };
    let len = digits.as_str().unicode_len();
    let used_by_sign: usize = if n < 0 {
        1
    } else {
        0
    };
    let missing: usize = if width > len && width - len > used_by_sign {
        width - len - used_by_sign
    } else {
        0
    };
    let zeros = repeat("0", missing);
    cat3(sign.as_str(), zeros.as_str(), digits.as_str())
}

/// A moment as ISO 8601 writes it.
pub open spec fn iso8601_text(t: GmTime) -> Seq<char> {
    zero_filled(t.year as int, 4) + "-"@ + zero_filled(t.month as int, 2) + "-"@ + zero_filled(
        t.day as int,
        2,
    ) + "T"@ + zero_filled(t.hour as int, 2) + ":"@ + zero_filled(t.minute as int, 2) + ":"@
        + zero_filled(t.second as int, 2) + "Z"@
}

fn iso8601(t: &GmTime) -> (r: String)
    ensures
        r@ == iso8601_text(*t),
{
    let mut out = zero_fill(t.year as i64, 4);
    out.append("-");
    let month = zero_fill(t.month as i64, 2);
    out.append(month.as_str());
    out.append("-");
    let day = zero_fill(t.day as i64, 2);
    out.append(day.as_str());
    out.append("T");
    let hour = zero_fill(t.hour as i64, 2);
    out.append(hour.as_str());
    out.append(":");
    let minute = zero_fill(t.minute as i64, 2);
    out.append(minute.as_str());
    out.append(":");
    let second = zero_fill(t.second as i64, 2);
    out.append(second.as_str());
    out.append("Z");
    out
}

/// The moment that lies `now` seconds from the start of 1970, as ISO 8601
/// writes it.
pub fn iso8601_now_utc(now: i64) -> (r: String)
    ensures
        exists|t: GmTime| is_moment(t, now as int) && r@ == iso8601_text(t),
{
    let t = chrono_like_gmtime(now);
    iso8601(&t)
}

} // verus!
