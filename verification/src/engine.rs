//! Conversion engine for the proleptic Gregorian calendar.
//!
//! Pure arithmetic over plain integers: leap years, linear day counts from
//! the common-era start, ordinal dates, month tables, and seconds-of-day.
//! The composite date and time types delegate every cross-field check and
//! every calendar conversion to these functions.

use vstd::prelude::*;

verus! {

use vstd::arithmetic::div_mod::{
    lemma_fundamental_div_mod, lemma_fundamental_div_mod_converse, lemma_mod_bound,
};

/// Days in the 1-year cycle of the Gregorian calendar (common year).
pub const DAYS_PER_COMMON_YEAR: i64 = 365;

/// Days in the 4-year cycle (three common years and one leap year).
pub const DAYS_PER_4_YEARS: i64 = DAYS_PER_COMMON_YEAR * 4 + 1;

/// Days in the 100-year cycle (the century year is not leap).
pub const DAYS_PER_100_YEARS: i64 = DAYS_PER_4_YEARS * 25 - 1;

/// Days in the 400-year cycle (the 400th year is leap again).
pub const DAYS_PER_400_YEARS: i64 = DAYS_PER_100_YEARS * 4 + 1;

/// Seconds in one day.
pub const SECONDS_PER_DAY: i64 = 24 * 60 * 60;

/// Days from the common-era start through 1969-12-31, plus one:
/// the linear day number of 1970-01-01.
pub const DAYS_FROM_CE_TO_UNIX_EPOCH: i64 = 719_163;

/// Seconds from the common-era start to 1970-01-01T00:00:00.
pub const SECONDS_FROM_CE_TO_UNIX_EPOCH: i64 = DAYS_FROM_CE_TO_UNIX_EPOCH * SECONDS_PER_DAY;

/// Largest year the engine converts; one past the last calendar year,
/// so that second counts just past the supported instant range still format.
pub const MAX_ENGINE_YEAR: i64 = 10_000;

/// Linear day number of 10000-12-31, the last day the engine converts.
pub const MAX_ENGINE_DAY: i64 = 3_652_425;

/// The Gregorian leap-year rule: every 4th year, except every 100th,
/// except every 400th.
pub open spec fn spec_is_leap_year(y: int) -> bool {
    y % 400 == 0 || (y % 100 != 0 && y % 4 == 0)
}

/// Number of days in year `y`.
pub open spec fn spec_days_in_year(y: int) -> int {
    if spec_is_leap_year(y) {
        366
    } else {
        365
    }
}

/// Days elapsed from the common-era start through the end of year `y`:
/// the sum of the day counts of years 1 through `y`.
pub open spec fn spec_days_from_ce_of_year(y: int) -> int
    decreases y,
{
    if y <= 0 {
        0
    } else {
        spec_days_from_ce_of_year(y - 1) + spec_days_in_year(y)
    }
}

/// Stepping a quotient: dividing `x` rather than `x - 1` adds one exactly
/// when `d` divides `x`.
proof fn lemma_div_step(x: int, d: int)
    requires
        x >= 1,
        d >= 1,
    ensures
        x / d == (x - 1) / d + if x % d == 0 {
            1int
        } else {
            0int
        },
{
    let q = (x - 1) / d;
    let r = (x - 1) % d;
    lemma_fundamental_div_mod(x - 1, d);
    lemma_mod_bound(x - 1, d);
    assert(q * d == d * q) by (nonlinear_arith);
    if r + 1 < d {
        lemma_fundamental_div_mod_converse(x, d, q, r + 1);
    } else {
        assert((q + 1) * d == d * q + d) by (nonlinear_arith);
        lemma_fundamental_div_mod_converse(x, d, q + 1, 0);
    }
}

/// If 400 divides `y` then so do 100 and 4; if 100 divides `y` then so
/// does 4.
proof fn lemma_divisibility_chain(y: int)
    requires
        y >= 0,
    ensures
        y % 400 == 0 ==> y % 100 == 0,
        y % 100 == 0 ==> y % 4 == 0,
{
    if y % 400 == 0 {
        lemma_fundamental_div_mod(y, 400);
        lemma_fundamental_div_mod_converse(y, 100, 4 * (y / 400), 0);
    }
    if y % 100 == 0 {
        lemma_fundamental_div_mod(y, 100);
        lemma_fundamental_div_mod_converse(y, 4, 25 * (y / 100), 0);
    }
}

/// The closed form of the cumulative day count: counting one day per year
/// plus one per leap year gives `365 y + y/4 - y/100 + y/400`.
pub proof fn lemma_days_from_ce_closed_form(y: int)
    requires
        y >= 0,
    ensures
        spec_days_from_ce_of_year(y) == 365 * y + y / 4 - y / 100 + y / 400,
    decreases y,
{
    if y == 0 {
        assert(0int / 4 == 0 && 0int / 100 == 0 && 0int / 400 == 0);
    } else {
        lemma_days_from_ce_closed_form(y - 1);
        lemma_div_step(y, 4);
        lemma_div_step(y, 100);
        lemma_div_step(y, 400);
        lemma_divisibility_chain(y);
    }
}

/// Linear day number of day `doy` of year `y` (1970-01-01 is day 719,163).
pub open spec fn spec_days_from_ce_of_ordinal_date(y: int, doy: int) -> int {
    spec_days_from_ce_of_year(y - 1) + doy
}

/// The inverse of the linear day count: the (year, day-of-year) pair whose
/// day number is `d`, recovered by decomposing `d - 1` under the 400-year,
/// 100-year, 4-year and 1-year cycles.  A quotient of 4 at the 100-year or
/// 1-year step can only happen on the final day of a leap cycle, which is
/// day 366 of the cycle's last year rather than a day of a further year.
pub open spec fn spec_ordinal_date_from_days(d: int) -> (int, int) {
    let x = d - 1;
    let c400 = x / 146_097;
    let r400 = x % 146_097;
    let c100 = r400 / 36_524;
    let r100 = r400 % 36_524;
    let c4 = r100 / 1_461;
    let r4 = r100 % 1_461;
    let c1 = r4 / 365;
    let r1 = r4 % 365;
    if c100 == 4 || c1 == 4 {
        (400 * c400 + 100 * c100 + 4 * c4 + c1, 366)
    } else {
        (400 * c400 + 100 * c100 + 4 * c4 + c1 + 1, r1 + 1)
    }
}

/// Cumulative day counts grow by at least 365 and at most 366 per year.
pub proof fn lemma_days_from_ce_increases(a: int, b: int)
    requires
        0 <= a <= b,
    ensures
        spec_days_from_ce_of_year(a) + 365 * (b - a) <= spec_days_from_ce_of_year(b),
        spec_days_from_ce_of_year(b) <= spec_days_from_ce_of_year(a) + 366 * (b - a),
    decreases b - a,
{
    if a < b {
        lemma_days_from_ce_increases(a, b - 1);
    }
}

/// The decomposition of a day number is a valid ordinal date whose day
/// number is the one decomposed: `spec_ordinal_date_from_days` is a right
/// inverse of `spec_days_from_ce_of_ordinal_date`.
pub proof fn lemma_ordinal_date_from_days_characterization(d: int)
    requires
        1 <= d <= MAX_ENGINE_DAY,
    ensures
        ({
            let (y, doy) = spec_ordinal_date_from_days(d);
            &&& 1 <= y <= MAX_ENGINE_YEAR
            &&& 1 <= doy <= spec_days_in_year(y)
            &&& spec_days_from_ce_of_ordinal_date(y, doy) == d
        }),
{
    let x = d - 1;
    let c400 = x / 146_097;
    let r400 = x % 146_097;
    let c100 = r400 / 36_524;
    let r100 = r400 % 36_524;
    let c4 = r100 / 1_461;
    let r4 = r100 % 1_461;
    let c1 = r4 / 365;
    let r1 = r4 % 365;
    lemma_fundamental_div_mod(x, 146_097);
    lemma_mod_bound(x, 146_097);
    lemma_fundamental_div_mod(r400, 36_524);
    lemma_mod_bound(r400, 36_524);
    lemma_fundamental_div_mod(r100, 1_461);
    lemma_mod_bound(r100, 1_461);
    lemma_fundamental_div_mod(r4, 365);
    lemma_mod_bound(r4, 365);
    assert(0 <= c400 <= 24);
    assert(0 <= c100 <= 4);
    assert(0 <= c4 <= 24);
    assert(0 <= c1 <= 4);
    if c100 == 4 {
        // Only the last day of a 400-year cycle reaches a fifth century:
        // the cycle's one extra leap day.
        let y = 400 * c400 + 400;
        assert(r400 == 146_096 && r100 == 0 && c4 == 0 && r4 == 0 && c1 == 0);
        lemma_fundamental_div_mod_converse(y, 400, c400 + 1, 0);
        assert(spec_is_leap_year(y));
        let n = y - 1;
        lemma_days_from_ce_closed_form(n);
        lemma_fundamental_div_mod_converse(n, 4, 100 * c400 + 99, 3);
        lemma_fundamental_div_mod_converse(n, 100, 4 * c400 + 3, 99);
        lemma_fundamental_div_mod_converse(n, 400, c400, 399);
        assert(spec_days_from_ce_of_year(n) == 146_097 * c400 + 145_731);
        assert(spec_ordinal_date_from_days(d) == (y, 366int));
    } else if c1 == 4 {
        // Only the last day of a 4-year sub-cycle reaches a fifth year:
        // day 366 of the sub-cycle's leap year.
        let y = 400 * c400 + 100 * c100 + 4 * c4 + 4;
        assert(r4 == 1_460 && r1 == 0);
        assert(c4 <= 23);
        lemma_fundamental_div_mod_converse(y, 4, 100 * c400 + 25 * c100 + c4 + 1, 0);
        lemma_fundamental_div_mod_converse(y, 100, 4 * c400 + c100, 4 * c4 + 4);
        assert(spec_is_leap_year(y));
        let n = y - 1;
        lemma_days_from_ce_closed_form(n);
        lemma_fundamental_div_mod_converse(n, 4, 100 * c400 + 25 * c100 + c4, 3);
        lemma_fundamental_div_mod_converse(n, 100, 4 * c400 + c100, 4 * c4 + 3);
        lemma_fundamental_div_mod_converse(n, 400, c400, 100 * c100 + 4 * c4 + 3);
        assert(spec_days_from_ce_of_year(n) == 146_097 * c400 + 36_524 * c100 + 1_461 * c4
            + 1_095);
        assert(spec_ordinal_date_from_days(d) == (y, 366int));
    } else {
        let y = 400 * c400 + 100 * c100 + 4 * c4 + c1 + 1;
        let n = y - 1;
        lemma_days_from_ce_closed_form(n);
        lemma_fundamental_div_mod_converse(n, 4, 100 * c400 + 25 * c100 + c4, c1);
        lemma_fundamental_div_mod_converse(n, 100, 4 * c400 + c100, 4 * c4 + c1);
        lemma_fundamental_div_mod_converse(n, 400, c400, 100 * c100 + 4 * c4 + c1);
        assert(spec_days_from_ce_of_year(n) == 146_097 * c400 + 36_524 * c100 + 1_461 * c4 + 365
            * c1);
        assert(spec_ordinal_date_from_days(d) == (y, r1 + 1));
        assert(1 <= y <= MAX_ENGINE_YEAR);
    }
}

/// A day number determines its (year, day-of-year) pair: decomposing the
/// day number of any valid ordinal date gives that ordinal date back.
pub proof fn lemma_ordinal_date_round_trip(y: int, doy: int)
    requires
        1 <= y <= MAX_ENGINE_YEAR,
        1 <= doy <= spec_days_in_year(y),
    ensures
        spec_ordinal_date_from_days(spec_days_from_ce_of_ordinal_date(y, doy)) == (y, doy),
{
    let d = spec_days_from_ce_of_ordinal_date(y, doy);
    lemma_days_from_ce_increases(0, y - 1);
    lemma_days_from_ce_increases(y, MAX_ENGINE_YEAR as int);
    lemma_days_from_ce_closed_form(MAX_ENGINE_YEAR as int);
    assert(spec_days_from_ce_of_year(y) == spec_days_from_ce_of_year(y - 1)
        + spec_days_in_year(y));
    assert(1 <= d <= MAX_ENGINE_DAY);
    lemma_ordinal_date_from_days_characterization(d);
    let (y2, doy2) = spec_ordinal_date_from_days(d);
    assert(spec_days_from_ce_of_year(y2) == spec_days_from_ce_of_year(y2 - 1)
        + spec_days_in_year(y2));
    if y2 < y {
        lemma_days_from_ce_increases(y2, y - 1);
        assert(false);
    }
    if y < y2 {
        lemma_days_from_ce_increases(y, y2 - 1);
        assert(false);
    }
    assert(y2 == y);
}

/// Days in month `m` (1 through 12) of a common or leap year.
pub open spec fn spec_days_in_month(leap: bool, m: int) -> int {
    if m == 2 {
        if leap {
            29
        } else {
            28
        }
    } else if m == 4 || m == 6 || m == 9 || m == 11 {
        30
    } else {
        31
    }
}

/// Days of the year that precede month `m`: the sum of the lengths of
/// months 1 through `m - 1`.
pub open spec fn spec_days_before_month(leap: bool, m: int) -> int
    decreases m,
{
    if m <= 1 {
        0
    } else {
        spec_days_before_month(leap, m - 1) + spec_days_in_month(leap, m - 1)
    }
}

/// The twelve month lengths sum to the length of the year.
pub proof fn lemma_days_before_month_total(leap: bool)
    ensures
        spec_days_before_month(leap, 13) == if leap {
            366int
        } else {
            365int
        },
{
    reveal_with_fuel(spec_days_before_month, 13);
}

/// `spec_days_before_month` grows by the length of each month passed.
pub proof fn lemma_days_before_month_increases(leap: bool, a: int, b: int)
    requires
        1 <= a <= b,
    ensures
        spec_days_before_month(leap, a) <= spec_days_before_month(leap, b),
    decreases b - a,
{
    if a < b {
        lemma_days_before_month_increases(leap, a, b - 1);
    }
}

/// The (month, day-of-month) pair a day-of-year falls on, found by walking
/// the month lengths from month `m` with `rem` days still to place.
pub open spec fn spec_month_day_helper(leap: bool, m: int, rem: int) -> (int, int)
    decreases 12 - m,
{
    if m >= 12 || rem <= spec_days_in_month(leap, m) {
        (m, rem)
    } else {
        spec_month_day_helper(leap, m + 1, rem - spec_days_in_month(leap, m))
    }
}

/// The (month, day-of-month) pair of day `doy` of a common or leap year.
pub open spec fn spec_month_day_of_ordinal(leap: bool, doy: int) -> (int, int) {
    spec_month_day_helper(leap, 1, doy)
}

/// Walking the month table from month `m` places the remaining days in a
/// valid month whose preceding-days count accounts for the days already
/// walked.
proof fn lemma_month_day_helper_characterization(leap: bool, m: int, rem: int)
    requires
        1 <= m <= 12,
        1 <= rem,
        spec_days_before_month(leap, m) + rem <= spec_days_before_month(leap, 13),
    ensures
        ({
            let (m2, d2) = spec_month_day_helper(leap, m, rem);
            &&& m <= m2 <= 12
            &&& 1 <= d2 <= spec_days_in_month(leap, m2)
            &&& spec_days_before_month(leap, m2) + d2 == spec_days_before_month(leap, m) + rem
        }),
    decreases 12 - m,
{
    if m >= 12 || rem <= spec_days_in_month(leap, m) {
        assert(spec_days_before_month(leap, 13) == spec_days_before_month(leap, 12)
            + spec_days_in_month(leap, 12));
    } else {
        lemma_month_day_helper_characterization(leap, m + 1, rem - spec_days_in_month(leap, m));
    }
}

/// The (month, day-of-month) pair of day `doy` of the year is valid and
/// accounts for `doy` exactly.
pub proof fn lemma_month_day_of_ordinal_characterization(leap: bool, doy: int)
    requires
        1 <= doy <= spec_days_before_month(leap, 13),
    ensures
        ({
            let (m, dom) = spec_month_day_of_ordinal(leap, doy);
            &&& 1 <= m <= 12
            &&& 1 <= dom <= spec_days_in_month(leap, m)
            &&& spec_days_before_month(leap, m) + dom == doy
        }),
{
    lemma_month_day_helper_characterization(leap, 1, doy);
}

/// Walking the month table recovers any valid (month, day-of-month) pair
/// from its day-of-year, whatever month the walk starts in.
proof fn lemma_month_day_helper_round_trip(leap: bool, k: int, m: int, dom: int)
    requires
        1 <= k <= m <= 12,
        1 <= dom <= spec_days_in_month(leap, m),
    ensures
        spec_month_day_helper(
            leap,
            k,
            spec_days_before_month(leap, m) + dom - spec_days_before_month(leap, k),
        ) == (m, dom),
    decreases m - k,
{
    if k < m {
        lemma_days_before_month_increases(leap, k + 1, m);
        lemma_month_day_helper_round_trip(leap, k + 1, m, dom);
    }
}

/// A day-of-year determines its (month, day-of-month) pair: walking the
/// month table on the day-of-year of any valid pair gives that pair back.
pub proof fn lemma_month_day_round_trip(leap: bool, m: int, dom: int)
    requires
        1 <= m <= 12,
        1 <= dom <= spec_days_in_month(leap, m),
    ensures
        spec_month_day_of_ordinal(leap, spec_days_before_month(leap, m) + dom) == (m, dom),
{
    lemma_month_day_helper_round_trip(leap, 1, m, dom);
}

/// A day number survives the round trip through its ordinal date: the
/// decomposition of `d` is an ordinal date whose own day number
/// decomposes to it again.
pub proof fn lemma_days_ordinal_round_trip(d: int)
    requires
        1 <= d <= MAX_ENGINE_DAY,
    ensures
        ({
            let (y, doy) = spec_ordinal_date_from_days(d);
            &&& spec_days_from_ce_of_ordinal_date(y, doy) == d
            &&& spec_ordinal_date_from_days(spec_days_from_ce_of_ordinal_date(y, doy)) == (y, doy)
        }),
{
    lemma_ordinal_date_from_days_characterization(d);
    let (y, doy) = spec_ordinal_date_from_days(d);
    lemma_ordinal_date_round_trip(y, doy);
}

/// Reports whether `year` is a Gregorian leap year.
pub fn is_leap_year(year: i64) -> (r: bool)
    requires
        0 <= year,
    ensures
        r == spec_is_leap_year(year as int),
{
    let y = year as u64;
    (y % 400 == 0) || ((y % 100 != 0) && (y % 4 == 0))
}

/// Days from the common-era start through the end of year `y`, by the
/// closed-form count of leap days.
pub fn days_from_ce_from_year(y: i64) -> (r: i64)
    requires
        0 <= y <= MAX_ENGINE_YEAR,
    ensures
        r == spec_days_from_ce_of_year(y as int),
{
    proof {
        lemma_days_from_ce_closed_form(y as int);
    }
    let u = y as u64;
    (u * 365 + u / 4 - u / 100 + u / 400) as i64
}

/// Linear day number of the ordinal date `(year, day_of_year)`.
pub fn days_from_ce_from_ordinal_date(ordinal_date: (i64, i64)) -> (r: i64)
    requires
        1 <= ordinal_date.0 <= MAX_ENGINE_YEAR,
        1 <= ordinal_date.1 <= spec_days_in_year(ordinal_date.0 as int),
    ensures
        r == spec_days_from_ce_of_ordinal_date(ordinal_date.0 as int, ordinal_date.1 as int),
        1 <= r <= MAX_ENGINE_DAY,
{
    let (year, day_of_year) = ordinal_date;
    proof {
        lemma_days_from_ce_increases(0, year - 1);
        lemma_days_from_ce_increases(year - 1, MAX_ENGINE_YEAR as int);
        lemma_days_from_ce_closed_form(MAX_ENGINE_YEAR as int);
    }
    days_from_ce_from_year(year - 1) + day_of_year
}

/// The ordinal date whose linear day number is `d`, by cycle decomposition.
pub fn ordinal_date_from_days_from_ce(d: i64) -> (r: (i64, i64))
    requires
        1 <= d <= MAX_ENGINE_DAY,
    ensures
        (r.0 as int, r.1 as int) == spec_ordinal_date_from_days(d as int),
        1 <= r.0 <= MAX_ENGINE_YEAR,
        1 <= r.1 <= spec_days_in_year(r.0 as int),
        spec_days_from_ce_of_ordinal_date(r.0 as int, r.1 as int) == d,
{
    proof {
        lemma_ordinal_date_from_days_characterization(d as int);
    }
    let x = (d - 1) as u64;
    let c400 = x / 146_097;
    let r400 = x % 146_097;
    let c100 = r400 / 36_524;
    let r100 = r400 % 36_524;
    let c4 = r100 / 1_461;
    let r4 = r100 % 1_461;
    let c1 = r4 / 365;
    let r1 = r4 % 365;
    let is_leap = c100 == 4 || c1 == 4;
    let year = 400 * c400 + 100 * c100 + 4 * c4 + c1 + if is_leap {
        0
    } else {
        1
    };
    let day_of_year = if is_leap {
        366
    } else {
        r1 + 1
    };
    (year as i64, day_of_year as i64)
}

/// Days in month `m` of a common or leap year.
pub fn days_in_month_of(leap: bool, m: i64) -> (r: i64)
    ensures
        r == spec_days_in_month(leap, m as int),
{
    if m == 2 {
        if leap {
            29
        } else {
            28
        }
    } else if m == 4 || m == 6 || m == 9 || m == 11 {
        30
    } else {
        31
    }
}

/// Places `rem` remaining days of the year starting at month `m`.
fn month_day_from_remaining(leap: bool, m: i64, rem: i64) -> (r: (i64, i64))
    requires
        1 <= m <= 12,
        1 <= rem,
        spec_days_before_month(leap, m as int) + rem <= spec_days_before_month(leap, 13),
    ensures
        (r.0 as int, r.1 as int) == spec_month_day_helper(leap, m as int, rem as int),
        1 <= r.0 <= 12,
        1 <= r.1 <= 31,
    decreases 12 - m,
{
    proof {
        lemma_month_day_helper_characterization(leap, m as int, rem as int);
    }
    let dim = days_in_month_of(leap, m);
    if m >= 12 || rem <= dim {
        (m, rem)
    } else {
        month_day_from_remaining(leap, m + 1, rem - dim)
    }
}

/// The calendar date `(year, month, day_of_month)` of the ordinal date
/// `(year, day_of_year)`, by walking the month-length table.
pub fn date_from_ordinal_date(ordinal_date: (i64, i64)) -> (r: (i64, i64, i64))
    requires
        0 <= ordinal_date.0 <= MAX_ENGINE_YEAR,
        1 <= ordinal_date.1 <= spec_days_in_year(ordinal_date.0 as int),
    ensures
        ({
            let leap = spec_is_leap_year(ordinal_date.0 as int);
            let (m, dom) = spec_month_day_of_ordinal(leap, ordinal_date.1 as int);
            &&& r.0 == ordinal_date.0
            &&& (r.1 as int, r.2 as int) == (m, dom)
            &&& 1 <= r.1 <= 12
            &&& 1 <= r.2 <= spec_days_in_month(leap, r.1 as int)
            &&& spec_days_before_month(leap, r.1 as int) + r.2 == ordinal_date.1
        }),
{
    let (year, day_of_year) = ordinal_date;
    let leap = is_leap_year(year);
    proof {
        lemma_days_before_month_total(leap);
        lemma_month_day_of_ordinal_characterization(leap, day_of_year as int);
    }
    let (month, day_of_month) = month_day_from_remaining(leap, 1, day_of_year);
    (year, month, day_of_month)
}

/// The ordinal date of the calendar date `(year, month, day_of_month)`,
/// by summing the lengths of the preceding months.
pub fn ordinal_date_from_date(date: (i64, i64, i64)) -> (r: (i64, i64))
    requires
        0 <= date.0 <= MAX_ENGINE_YEAR,
        1 <= date.1 <= 12,
        1 <= date.2 <= spec_days_in_month(spec_is_leap_year(date.0 as int), date.1 as int),
    ensures
        ({
            let leap = spec_is_leap_year(date.0 as int);
            &&& r.0 == date.0
            &&& r.1 == spec_days_before_month(leap, date.1 as int) + date.2
            &&& 1 <= r.1 <= spec_days_in_year(date.0 as int)
        }),
{
    let (year, month, day_of_month) = date;
    let leap = is_leap_year(year);
    let mut k: i64 = 1;
    let mut days: i64 = 0;
    while k < month
        invariant
            1 <= k <= month <= 12,
            0 <= days,
            days == spec_days_before_month(leap, k as int),
            days <= 366,
        decreases month - k,
    {
        days = days + days_in_month_of(leap, k);
        proof {
            lemma_days_before_month_increases(leap, k + 1, 13);
            lemma_days_before_month_total(leap);
        }
        k = k + 1;
    }
    proof {
        lemma_days_before_month_increases(leap, month as int + 1, 13);
        lemma_days_before_month_total(leap);
        assert(spec_days_before_month(leap, month as int + 1) == spec_days_before_month(
            leap,
            month as int,
        ) + spec_days_in_month(leap, month as int));
    }
    (year, days + day_of_month)
}

/// Seconds from midnight of the time of day `(hour, minute, second)`.
pub fn seconds_from_midnight_from_time(time: (i64, i64, i64)) -> (r: i64)
    requires
        0 <= time.0 < 24,
        0 <= time.1 < 60,
        0 <= time.2 < 60,
    ensures
        r == time.0 * 3600 + time.1 * 60 + time.2,
        0 <= r < SECONDS_PER_DAY,
{
    let (h, min, s) = time;
    (h * 60 + min) * 60 + s
}

/// The time of day `(hour, minute, second)` lying `seconds` seconds after
/// midnight, by successive division.
pub fn time_from_seconds_from_midnight(seconds: i64) -> (r: (i64, i64, i64))
    requires
        0 <= seconds < SECONDS_PER_DAY,
    ensures
        0 <= r.0 < 24,
        0 <= r.1 < 60,
        0 <= r.2 < 60,
        r.0 * 3600 + r.1 * 60 + r.2 == seconds,
{
    let u = seconds as u64;
    let s = u % 60;
    let rest = u / 60;
    let min = rest % 60;
    let h = rest / 60;
    proof {
        lemma_fundamental_div_mod(u as int, 60);
        lemma_mod_bound(u as int, 60);
        lemma_fundamental_div_mod(rest as int, 60);
        lemma_mod_bound(rest as int, 60);
    }
    (h as i64, min as i64, s as i64)
}

/// A time of day survives the round trip through its second count:
/// decomposing `h*3600 + m*60 + s` by successive division recovers the
/// three fields, so the two time representations name the same moments.
pub proof fn lemma_time_of_day_round_trip(hour: int, minute: int, second: int)
    requires
        0 <= hour < 24,
        0 <= minute < 60,
        0 <= second < 60,
    ensures
        ({
            let seconds_from_midnight = hour * 3600 + minute * 60 + second;
            &&& seconds_from_midnight % 60 == second
            &&& (seconds_from_midnight / 60) % 60 == minute
            &&& (seconds_from_midnight / 60) / 60 == hour
        }),
{
    let seconds_from_midnight = hour * 3600 + minute * 60 + second;
    lemma_fundamental_div_mod_converse(seconds_from_midnight, 60, 60 * hour + minute, second);
    lemma_fundamental_div_mod_converse(60 * hour + minute, 60, hour, minute);
}

/// A second count that no date and time of the supported span can carry.
#[derive(Clone, Copy, Debug, Eq, PartialEq, Structural)]
pub struct TimestampError;

/// The year field of the canonical date and time text: four digits
/// zero-padded, more digits unpadded past year 9999.
pub open spec fn spec_year_chars(y: int) -> Seq<char> {
    if y < 10000 {
        crate::text::spec_dec4(y)
    } else {
        crate::text::spec_dec5(y)
    }
}

/// The canonical `YYYY-MM-DDTHH:MM:SS` text of the instant lying `ts`
/// seconds after 1970-01-01T00:00:00.
pub open spec fn spec_date_time_chars(ts: int) -> Seq<char> {
    let seconds_from_ce = ts + SECONDS_FROM_CE_TO_UNIX_EPOCH;
    let days_from_ce = seconds_from_ce / (SECONDS_PER_DAY as int);
    let seconds_from_midnight = seconds_from_ce % (SECONDS_PER_DAY as int);
    let (year, day_of_year) = spec_ordinal_date_from_days(days_from_ce);
    let (month, day_of_month) = spec_month_day_of_ordinal(spec_is_leap_year(year), day_of_year);
    let second = seconds_from_midnight % 60;
    let rest = seconds_from_midnight / 60;
    let minute = rest % 60;
    let hour = rest / 60;
    spec_year_chars(year) + seq!['-'] + crate::text::spec_dec2(month) + seq!['-']
        + crate::text::spec_dec2(day_of_month) + seq!['T'] + crate::text::spec_dec2(hour)
        + seq![':'] + crate::text::spec_dec2(minute) + seq![':'] + crate::text::spec_dec2(second)
}

/// Formats six date and time fields as `YYYY-MM-DDTHH:MM:SS` text.
fn format_date_time_fields(
    year: i64,
    month: i64,
    day_of_month: i64,
    hour: i64,
    minute: i64,
    second: i64,
) -> (out: String)
    requires
        0 <= year < 100000,
        0 <= month < 100,
        0 <= day_of_month < 100,
        0 <= hour < 100,
        0 <= minute < 100,
        0 <= second < 100,
    ensures
        out@ == spec_year_chars(year as int) + seq!['-'] + crate::text::spec_dec2(month as int)
            + seq!['-'] + crate::text::spec_dec2(day_of_month as int) + seq!['T']
            + crate::text::spec_dec2(hour as int) + seq![':'] + crate::text::spec_dec2(
            minute as int,
        ) + seq![':'] + crate::text::spec_dec2(second as int),
{
    let mut out = String::new();
    if year <= 9999 {
        crate::text::push_4_digits(&mut out, year as u64);
    } else {
        crate::text::push_5_digits(&mut out, year as u64);
    }
    proof {
        reveal_strlit("-");
        reveal_strlit("T");
        reveal_strlit(":");
    }
    out.append("-");
    crate::text::push_2_digits(&mut out, month as u64);
    out.append("-");
    crate::text::push_2_digits(&mut out, day_of_month as u64);
    out.append("T");
    crate::text::push_2_digits(&mut out, hour as u64);
    out.append(":");
    crate::text::push_2_digits(&mut out, minute as u64);
    out.append(":");
    crate::text::push_2_digits(&mut out, second as u64);
    proof {
        assert(out@ =~= spec_year_chars(year as int) + seq!['-'] + crate::text::spec_dec2(
            month as int,
        ) + seq!['-'] + crate::text::spec_dec2(day_of_month as int) + seq!['T']
            + crate::text::spec_dec2(hour as int) + seq![':'] + crate::text::spec_dec2(
            minute as int,
        ) + seq![':'] + crate::text::spec_dec2(second as int));
    }
    out
}

/// Formats the instant lying `seconds_from_unix_epoch` seconds after
/// 1970-01-01T00:00:00 as canonical `YYYY-MM-DDTHH:MM:SS` text.
pub fn date_time_string_from_seconds_from_unix_epoch(seconds_from_unix_epoch: i64) -> (r: Result<
    String,
    TimestampError,
>)
    requires
        SECONDS_PER_DAY <= seconds_from_unix_epoch + SECONDS_FROM_CE_TO_UNIX_EPOCH,
        seconds_from_unix_epoch + SECONDS_FROM_CE_TO_UNIX_EPOCH < (MAX_ENGINE_DAY + 1)
            * SECONDS_PER_DAY,
    ensures
        r matches Ok(out) && out@ == spec_date_time_chars(seconds_from_unix_epoch as int),
{
    proof {
        // The range reasoning below needs the derived constants as literals.
        assert(SECONDS_FROM_CE_TO_UNIX_EPOCH == 62_135_683_200i64);
        assert(SECONDS_PER_DAY == 86_400i64);
        assert(MAX_ENGINE_DAY == 3_652_425i64);
    }
    let seconds_from_ce = seconds_from_unix_epoch + SECONDS_FROM_CE_TO_UNIX_EPOCH;
    let u = seconds_from_ce as u64;
    proof {
        lemma_fundamental_div_mod(u as int, SECONDS_PER_DAY as int);
        lemma_mod_bound(u as int, SECONDS_PER_DAY as int);
        assert(1 <= (u as int) / (SECONDS_PER_DAY as int) <= MAX_ENGINE_DAY);
    }
    let days_from_ce = (u / 86_400) as i64;
    let seconds_from_midnight = (u % 86_400) as i64;
    let (year, day_of_year) = ordinal_date_from_days_from_ce(days_from_ce);
    let (_, month, day_of_month) = date_from_ordinal_date((year, day_of_year));
    let (hour, minute, second) = time_from_seconds_from_midnight(seconds_from_midnight);
    proof {
        let rest = 60 * (hour as int) + minute as int;
        lemma_fundamental_div_mod_converse(seconds_from_midnight as int, 60, rest, second as int);
        lemma_fundamental_div_mod_converse(rest, 60, hour as int, minute as int);
    }
    let out = format_date_time_fields(year, month, day_of_month, hour, minute, second);
    proof {
        assert(out@ == spec_date_time_chars(seconds_from_unix_epoch as int));
    }
    Ok(out)
}

/// The second count that `chrono` reads out of a date and time text:
/// `None` where `chrono` rejects the text.
pub uninterp spec fn spec_chrono_timestamp(s: Seq<char>) -> Option<i64>;

/// Reads canonical `YYYY-MM-DDTHH:MM:SS` text as a count of seconds from
/// 1970-01-01T00:00:00.
///
/// Relies on `chrono::NaiveDateTime`'s `FromStr`, which parses the
/// `%Y-%m-%dT%H:%M:%S%.f` format, and on `NaiveDateTime::and_utc` and
/// `chrono::DateTime::timestamp`, which read the parsed value back out as
/// seconds from the Unix epoch; the result depends on the text alone.
#[verifier::external_body]
pub fn seconds_from_unix_epoch_from_date_time_string(date_time_string: &str) -> (r: Result<
    i64,
    TimestampError,
>)
    ensures
        r matches Ok(ts) ==> spec_chrono_timestamp(date_time_string@) == Some(ts),
        r is Err ==> spec_chrono_timestamp(date_time_string@) is None,
{
    let date_time = <chrono::NaiveDateTime as std::str::FromStr>::from_str(date_time_string)
        .map_err(|_| TimestampError)?;
    Ok(date_time.and_utc().timestamp())
}

} // verus!
