//! Dates of the Gregorian calendar, in UTC.
use vstd::prelude::*;

use crate::text::{cat, padded_text, zero_padded};

verus! {

/// Whether a year is a leap year.
pub open spec fn is_leap(y: int) -> bool {
    y % 4 == 0 && (y % 100 != 0 || y % 400 == 0)
}

/// How many days a month has.
pub open spec fn month_len(y: int, m: int) -> int {
    if m == 2 {
        if is_leap(y) {
            29
        } else {
            28
        }
    } else if m == 4 || m == 6 || m == 9 || m == 11 {
        30
    } else {
        31
    }
}

/// How many days of a year come before a month.
pub open spec fn days_before_month(y: int, m: int) -> int
    decreases m,
{
    if m <= 1 {
        0
    } else {
        days_before_month(y, m - 1) + month_len(y, m - 1)
    }
}

/// How many leap years there are from year 1 up to and with `y`.
pub open spec fn leap_years_through(y: int) -> int {
    y / 4 - y / 100 + y / 400
}

/// How many days lie between the Unix epoch and the start of a year.
pub open spec fn days_before_year(y: int) -> int {
    365 * (y - 1970) + leap_years_through(y - 1) - leap_years_through(1969)
}

/// Whether a year, month and day are a date.
pub open spec fn is_date(y: int, m: int, d: int) -> bool {
    1 <= m <= 12 && 1 <= d <= month_len(y, m)
}

/// How many days lie between the Unix epoch and a date.
pub open spec fn day_number(y: int, m: int, d: int) -> int {
    days_before_year(y) + days_before_month(y, m) + d - 1
}

proof fn month_table(y: int)
    ensures
        days_before_month(y, 1) == 0,
        days_before_month(y, 2) == 31,
        days_before_month(y, 3) == 59 + (if is_leap(y) {
            1int
        } else {
            0int
        }),
        days_before_month(y, 4) == days_before_month(y, 3) + 31,
        days_before_month(y, 5) == days_before_month(y, 3) + 61,
        days_before_month(y, 6) == days_before_month(y, 3) + 92,
        days_before_month(y, 7) == days_before_month(y, 3) + 122,
        days_before_month(y, 8) == days_before_month(y, 3) + 153,
        days_before_month(y, 9) == days_before_month(y, 3) + 184,
        days_before_month(y, 10) == days_before_month(y, 3) + 214,
        days_before_month(y, 11) == days_before_month(y, 3) + 245,
        days_before_month(y, 12) == days_before_month(y, 3) + 275,
        days_before_month(y, 13) == days_before_month(y, 3) + 306,
{
    reveal_with_fuel(days_before_month, 14);
}

proof fn year_step(y: int)
    ensures
        leap_years_through(y) == leap_years_through(y - 1) + (if is_leap(y) {
            1int
        } else {
            0int
        }),
        days_before_year(y + 1) == days_before_year(y) + days_before_month(y, 13),
{
    month_table(y);
    assert(y / 4 == (y - 1) / 4 + (if y % 4 == 0 {
        1int
    } else {
        0int
    }));
    assert(y / 100 == (y - 1) / 100 + (if y % 100 == 0 {
        1int
    } else {
        0int
    }));
    assert(y / 400 == (y - 1) / 400 + (if y % 400 == 0 {
        1int
    } else {
        0int
    }));
    assert(y % 100 == 0 ==> y % 4 == 0);
    assert(y % 400 == 0 ==> y % 100 == 0);
}

proof fn months_ascend(y: int, a: int, b: int)
    requires
        1 <= a <= b <= 13,
    ensures
        days_before_month(y, a) <= days_before_month(y, b),
        a < b ==> days_before_month(y, a) + month_len(y, a) <= days_before_month(y, b),
    decreases b - a,
{
    if a < b {
        months_ascend(y, a, b - 1);
        if a < b - 1 {
            assert(days_before_month(y, b) == days_before_month(y, b - 1) + month_len(y, b - 1));
        }
    }
}

proof fn years_ascend(a: int, b: int)
    requires
        a <= b,
    ensures
        days_before_year(a) <= days_before_year(b),
        a < b ==> days_before_year(a + 1) <= days_before_year(b),
    decreases b - a,
{
    if a < b {
        year_step(b - 1);
        month_table(b - 1);
        years_ascend(a, b - 1);
        if a < b - 1 {
            years_ascend(a + 1, b - 1);
        }
    }
}

proof fn date_in_year(y: int, m: int, d: int)
    requires
        is_date(y, m, d),
    ensures
        days_before_year(y) <= day_number(y, m, d) < days_before_year(y + 1),
{
    year_step(y);
    months_ascend(y, 1, m);
    months_ascend(y, m, 13);
}

/// Each day has one date.
pub proof fn date_is_unique(y: int, m: int, d: int, y2: int, m2: int, d2: int)
    requires
        is_date(y, m, d),
        is_date(y2, m2, d2),
        day_number(y, m, d) == day_number(y2, m2, d2),
    ensures
        y == y2 && m == m2 && d == d2,
{
    date_in_year(y, m, d);
    date_in_year(y2, m2, d2);
    if y < y2 {
        years_ascend(y, y2);
    } else if y2 < y {
        years_ascend(y2, y);
    } else if m < m2 {
        months_ascend(y, m, m2);
    } else if m2 < m {
        months_ascend(y, m2, m);
    }
}

/// Where a day of an era of 400 years, counted from 1 March, falls: century,
/// group of four years, year, and day of the year.
spec fn era_split_of(doe: int) -> (int, int, int, int) {
    let a = if doe / 36_524 < 3 {
        doe / 36_524
    } else {
        3
    };
    let rest = doe - 36_524 * a;
    let b = if rest / 1_461 < 24 {
        rest / 1_461
    } else {
        24
    };
    let more = rest - 1_461 * b;
    let c = if more / 365 < 3 {
        more / 365
    } else {
        3
    };
    (a, b, c, more - 365 * c)
}

proof fn era_split(doe: int)
    requires
        0 <= doe < 146_097,
    ensures
        ({
            let (a, b, c, k) = era_split_of(doe);
            &&& 0 <= a <= 3
            &&& 0 <= b <= 24
            &&& 0 <= c <= 3
            &&& 0 <= k <= 365
            &&& k == 365 ==> c == 3 && (b != 24 || a == 3)
            &&& doe == 36_524 * a + 1_461 * b + 365 * c + k
        }),
{
}

/// The year of an era out of the day of the era.
proof fn era_year(doe: int, a: int, b: int, c: int, k: int)
    requires
        0 <= a <= 3,
        0 <= b <= 24,
        0 <= c <= 3,
        0 <= k <= 365,
        k == 365 ==> c == 3 && (b != 24 || a == 3),
        doe == 36_524 * a + 1_461 * b + 365 * c + k,
    ensures
        (doe - doe / 1_460 + doe / 36_524 - doe / 146_096) / 365 == 100 * a + 4 * b + c,
        (100 * a + 4 * b + c) / 4 == 25 * a + b,
        (100 * a + 4 * b + c) / 100 == a,
{
    let q1 = (24 * a + b + 365 * c + k) / 1_460;
    assert(doe == 1_460 * (25 * a + b) + (24 * a + b + 365 * c + k));
    assert(doe / 1_460 == 25 * a + b + q1);
    assert(0 <= q1 <= 1);
    let q2 = (1_461 * b + 365 * c + k) / 36_524;
    assert(doe / 36_524 == a + q2);
    assert(0 <= q2 <= 1);
    let q3 = doe / 146_096;
    assert(0 <= q3 <= 1);
    assert(q2 == 1 ==> b == 24 && c == 3 && k == 365);
    assert(q3 == 1 ==> a == 3 && b == 24 && c == 3 && k == 365);
    assert(a == 3 && b == 24 && c == 3 && k == 365 ==> q2 == 1 && q3 == 1);
    assert(k == 365 ==> q1 == 1);
    assert(q1 == 1 ==> k > 0);
    let n = doe - doe / 1_460 + doe / 36_524 - doe / 146_096;
    assert(n == 365 * (100 * a + 4 * b + c) + (k - q1 + q2 - q3));
    assert(0 <= k - q1 + q2 - q3 < 365);
}

/// The month of a year that starts in March, out of the day of that year.
proof fn march_month(doy: int)
    requires
        0 <= doy <= 365,
    ensures
        0 <= (5 * doy + 2) / 153 <= 11,
        ({
            let mp = (5 * doy + 2) / 153;
            &&& (153 * mp + 2) / 5 <= doy
            &&& mp < 11 ==> doy < (153 * (mp + 1) + 2) / 5
        }),
{
    let mp = (5 * doy + 2) / 153;
    assert(153 * mp <= 5 * doy + 2 < 153 * (mp + 1));
}

/// The months of a year that starts in March begin where the formula says.
proof fn march_table(y: int, mp: int)
    requires
        0 <= mp <= 11,
    ensures
        mp <= 9 ==> days_before_month(y, mp + 3) == days_before_month(y, 3) + (153 * mp + 2) / 5,
        mp <= 9 ==> month_len(y, mp + 3) == (153 * (mp + 1) + 2) / 5 - (153 * mp + 2) / 5,
        mp >= 10 ==> days_before_month(y, mp - 9) == (153 * mp + 2) / 5 - 306,
        mp == 10 ==> month_len(y, 1) == (153 * 11 + 2) / 5 - (153 * 10 + 2) / 5,
{
    month_table(y);
    assert(mp == 0 || mp == 1 || mp == 2 || mp == 3 || mp == 4 || mp == 5 || mp == 6 || mp == 7
        || mp == 8 || mp == 9 || mp == 10 || mp == 11);
}

/// The civil year of a month of a year that starts in March.
spec fn civil_year(big: int, mp: int) -> int {
    if mp < 10 {
        big
    } else {
        big + 1
    }
}

spec fn civil_month(mp: int) -> int {
    if mp < 10 {
        mp + 3
    } else {
        mp - 9
    }
}

/// How many leap years there are up to a year of an era.
proof fn era_leaps(era: int, a: int, b: int, c: int)
    requires
        0 <= a <= 3,
        0 <= b <= 24,
        0 <= c <= 3,
    ensures
        leap_years_through(400 * era + 100 * a + 4 * b + c) == 97 * era + 24 * a + b,
{
    let big = 400 * era + 100 * a + 4 * b + c;
    assert(big / 4 == 100 * era + 25 * a + b);
    assert(big / 100 == 4 * era + a);
    assert(big / 400 == era);
}

/// Where 1 March of a year, and the January after it, fall.
proof fn march_first(era: int, a: int, b: int, c: int)
    requires
        0 <= a <= 3,
        0 <= b <= 24,
        0 <= c <= 3,
    ensures
        ({
            let big = 400 * era + 100 * a + 4 * b + c;
            let first = 146_097 * era + 36_524 * a + 1_461 * b + 365 * c - 719_468;
            &&& days_before_year(big) + days_before_month(big, 3) == first
            &&& days_before_year(big + 1) == first + 306
        }),
{
    let big = 400 * era + 100 * a + 4 * b + c;
    era_leaps(era, a, b, c);
    assert(leap_years_through(1969) == 477);
    year_step(big);
    month_table(big);
}

/// The year after the last one of a group has a leap day when that year is
/// long.
proof fn long_year(era: int, a: int, b: int)
    requires
        0 <= a <= 3,
        0 <= b <= 24,
        b != 24 || a == 3,
    ensures
        is_leap(400 * era + 100 * a + 4 * b + 4),
{
    let y = 400 * era + 100 * a + 4 * b + 4;
    assert(y % 4 == 0);
    if b == 24 {
        assert(y == 400 * (era + 1));
        assert(y % 400 == 0);
    } else {
        assert(y == 100 * (4 * era + a) + 4 * (b + 1));
        assert(y % 100 == 4 * (b + 1));
    }
}

/// Day `k` of a year that starts in March is the date that the formulas give.
proof fn march_day(era: int, a: int, b: int, c: int, k: int)
    requires
        0 <= a <= 3,
        0 <= b <= 24,
        0 <= c <= 3,
        0 <= k <= 365,
        k == 365 ==> c == 3 && (b != 24 || a == 3),
    ensures
        ({
            let big = 400 * era + 100 * a + 4 * b + c;
            let mp = (5 * k + 2) / 153;
            let d = k - (153 * mp + 2) / 5 + 1;
            let y = civil_year(big, mp);
            let m = civil_month(mp);
            &&& is_date(y, m, d)
            &&& day_number(y, m, d) == 146_097 * era + 36_524 * a + 1_461 * b + 365 * c + k
                - 719_468
        }),
{
    let big = 400 * era + 100 * a + 4 * b + c;
    let mp = (5 * k + 2) / 153;
    march_month(k);
    march_first(era, a, b, c);
    if mp < 10 {
        march_table(big, mp);
    } else {
        march_table(big + 1, mp);
        if k == 365 {
            long_year(era, a, b);
        }
    }
}

/// The date that the formulas give for a day, and the bounds that they stay
/// in.
proof fn civil_law(days: int)
    requires
        0 <= days,
    ensures
        ({
            let z = days + 719_468;
            let era = z / 146_097;
            let doe = z - era * 146_097;
            let yoe = (doe - doe / 1460 + doe / 36524 - doe / 146_096) / 365;
            let y = yoe + era * 400;
            let lead = 365 * yoe + yoe / 4 - yoe / 100;
            let doy = doe - lead;
            let mp = (5 * doy + 2) / 153;
            let d = doy - (153 * mp + 2) / 5 + 1;
            &&& 0 <= doe < 146_097
            &&& 0 <= doe - doe / 1460 + doe / 36524 - doe / 146_096
            &&& 0 <= yoe <= 399
            &&& 0 <= doy <= 365
            &&& 0 <= mp <= 11
            &&& 1 <= d <= 31
            &&& is_date(civil_year(y, mp), civil_month(mp), d)
            &&& day_number(civil_year(y, mp), civil_month(mp), d) == days
        }),
{
    let z = days + 719_468;
    let era = z / 146_097;
    let doe = z - era * 146_097;
    era_split(doe);
    let (a, b, c, k) = era_split_of(doe);
    era_year(doe, a, b, c, k);
    march_day(era, a, b, c, k);
    march_month(k);
}

/// A date in UTC with the time of day.
#[derive(Debug, Clone, Copy, PartialEq, Eq, Structural)]
pub struct DateTime {
    pub year: i32,
    pub month: u32,
    pub day: u32,
    pub hour: u32,
    pub minute: u32,
    pub second: u32,
}

/// The date of a day, counted from the Unix epoch.
fn civil_from_days(days: u64) -> (r: (i64, u32, u32))
    requires
        days <= u64::MAX / 86_400,
    ensures
        is_date(r.0 as int, r.1 as int, r.2 as int),
        day_number(r.0 as int, r.1 as int, r.2 as int) == days,
{
    proof {
        civil_law(days as int);
    }
    let z: u64 = days + 719_468;
    let era: u64 = z / 146_097;
    let doe: u64 = z - era * 146_097;
    let yoe: u64 = (doe - doe / 1460 + doe / 36524 - doe / 146_096) / 365;
    let y: u64 = yoe + era * 400;
    let doy: u64 = doe - (365 * yoe + yoe / 4 - yoe / 100);
    let mp: u64 = (5 * doy + 2) / 153;
    let d: u64 = doy - (153 * mp + 2) / 5 + 1;
    if mp < 10 {
        (y as i64, (mp + 3) as u32, d as u32)
    } else {
        ((y + 1) as i64, (mp - 9) as u32, d as u32)
    }
}

/// Converts a Unix timestamp into a date and time in UTC. The year is kept in
/// 32 bits, which holds it for far longer than the calendar will.
pub fn unix_to_ymdhms(secs: u64) -> (r: DateTime)
    ensures
        is_moment(r, secs),
{
    let time_of_day: u64 = secs % 86_400;
    let (civil, month, day) = civil_from_days(secs / 86_400);
    let r = DateTime {
        year: civil as i32,
        month,
        day,
        hour: (time_of_day / 3600) as u32,
        minute: ((time_of_day % 3600) / 60) as u32,
        second: (time_of_day % 60) as u32,
    };
    assert(r.year == civil as i32 && is_date(civil as int, r.month as int, r.day as int)
        && day_number(civil as int, r.month as int, r.day as int) == secs as int / 86_400);
    r
}

/// A year in at least four characters.
pub open spec fn year_text(y: i32) -> Seq<char> {
    if y < 0 {
        seq!['-'] + zero_padded((-(y as int)) as nat, 3)
    } else {
        zero_padded(y as nat, 4)
    }
}

/// `YYYY-MM-DDThh:mm:ssZ`.
pub open spec fn iso_text(t: DateTime) -> Seq<char> {
    year_text(t.year) + "-"@ + zero_padded(t.month as nat, 2) + "-"@ + zero_padded(
        t.day as nat,
        2,
    ) + "T"@ + zero_padded(t.hour as nat, 2) + ":"@ + zero_padded(t.minute as nat, 2) + ":"@
        + zero_padded(t.second as nat, 2) + "Z"@
}

fn print_year(y: i32) -> (r: String)
    ensures
        r@ == year_text(y),
{
    if y < 0 {
        let n: u64 = (-(y as i64)) as u64;
        let digits = padded_text(n, 3);
        let r = cat("-", digits.as_str());
        proof {
            reveal_strlit("-");
            assert("-"@ =~= seq!['-']);
        }
        r
    } else {
        padded_text(y as u64, 4)
    }
}

fn print_iso(t: DateTime) -> (r: String)
    ensures
        r@ == iso_text(t),
{
    let mut out = print_year(t.year);
    out.append("-");
    out.append(padded_text(t.month as u64, 2).as_str());
    out.append("-");
    out.append(padded_text(t.day as u64, 2).as_str());
    out.append("T");
    out.append(padded_text(t.hour as u64, 2).as_str());
    out.append(":");
    out.append(padded_text(t.minute as u64, 2).as_str());
    out.append(":");
    out.append(padded_text(t.second as u64, 2).as_str());
    out.append("Z");
    out
}

/// Whether `t` is the date and time of a Unix timestamp.
pub open spec fn is_moment(t: DateTime, secs: u64) -> bool {
    &&& exists|y: i64|
        t.year == y as i32 && is_date(y as int, t.month as int, t.day as int)
            && #[trigger] day_number(y as int, t.month as int, t.day as int) == secs as int / 86_400
    &&& t.hour < 24 && t.minute < 60 && t.second < 60
    &&& t.hour * 3600 + t.minute * 60 + t.second == secs as int % 86_400
}

/// A Unix timestamp has one date and time.
pub proof fn moment_is_unique(a: DateTime, b: DateTime, secs: u64)
    requires
        is_moment(a, secs),
        is_moment(b, secs),
    ensures
        a == b,
{
    let y = choose|y: i64|
        a.year == y as i32 && is_date(y as int, a.month as int, a.day as int)
            && #[trigger] day_number(y as int, a.month as int, a.day as int) == secs as int / 86_400;
    let z = choose|y: i64|
        b.year == y as i32 && is_date(y as int, b.month as int, b.day as int)
            && #[trigger] day_number(y as int, b.month as int, b.day as int) == secs as int / 86_400;
    date_is_unique(
        y as int,
        a.month as int,
        a.day as int,
        z as int,
        b.month as int,
        b.day as int,
    );
}

/// The date and time of a Unix timestamp.
pub open spec fn moment(secs: u64) -> DateTime {
    choose|t: DateTime| is_moment(t, secs)
}

/// Formats a Unix timestamp as `YYYY-MM-DDThh:mm:ssZ`, in UTC.
pub fn format_unix_ts(secs: u64) -> (r: String)
    ensures
        is_moment(moment(secs), secs),
        r@ == iso_text(moment(secs)),
{
    let t = unix_to_ymdhms(secs);
    proof {
        moment_is_unique(t, moment(secs), secs);
    }
    print_iso(t)
}

/// The days are counted from the start of 1970, one after the other: the next
/// day of a month, the first of the next month and the first of the next year
/// each count one more than the day before. Four hundred years have 146 097
/// days.
pub proof fn days_follow_each_other(y: int, m: int, d: int)
    ensures
        day_number(1970, 1, 1) == 0,
        day_number(y, m, d + 1) == day_number(y, m, d) + 1,
        1 <= m < 12 ==> day_number(y, m + 1, 1) == day_number(y, m, month_len(y, m)) + 1,
        day_number(y + 1, 1, 1) == day_number(y, 12, 31) + 1,
        day_number(y + 400, m, d) == day_number(y, m, d) + 146_097,
        month_len(y, 2) == 28 || month_len(y, 2) == 29,
        month_len(y, 2) == 29 ==> y % 4 == 0,
{
    month_table(y);
    month_table(1970);
    month_table(y + 1);
    year_step(y);
    assert((y + 399) / 4 == (y - 1) / 4 + 100);
    assert((y + 399) / 100 == (y - 1) / 100 + 4);
    assert((y + 399) / 400 == (y - 1) / 400 + 1);
    same_months(y, y + 400, m);
}

proof fn same_months(a: int, b: int, m: int)
    requires
        b == a + 400,
    ensures
        days_before_month(a, m) == days_before_month(b, m),
    decreases m,
{
    assert(is_leap(a) == is_leap(b)) by {
        assert((a + 400) % 4 == a % 4);
        assert((a + 400) % 100 == a % 100);
        assert((a + 400) % 400 == a % 400);
    }
    if m > 1 {
        same_months(a, b, m - 1);
    }
}

} // verus!
