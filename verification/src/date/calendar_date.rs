//! The calendar-date composite: a year, a month, and a day of that month.

use vstd::prelude::*;

verus! {

use crate::date::day_of_month::{DayOfMonth, ParseDayOfMonthError, spec_parse_day_of_month};
use crate::date::month::{Month, ParseMonthError, spec_parse_month};
use crate::date::ordinal_date::OrdinalDate;
use crate::date::day_of_year::DayOfYear;
use crate::date::year::{ParseYearError, Year, spec_parse_year};
use crate::date::year_month::YearMonth;
use crate::duration::days::Days;
use crate::engine::{
    lemma_days_before_month_increases, lemma_days_before_month_total,
    lemma_days_from_ce_closed_form, lemma_days_from_ce_increases, lemma_month_day_round_trip,
    spec_days_before_month, spec_days_from_ce_of_ordinal_date, spec_days_in_month,
    spec_days_in_year, spec_is_leap_year, spec_month_day_of_ordinal,
};
use crate::text::{push_2_digits, push_4_digits, spec_dec2, spec_dec4};
use vstd::string::StrSliceExecFns;
use vstd::string::StringExecFns;

/// A specific day of the supported span named by year, month, and day of
/// the month.
#[derive(Clone, Copy, Debug, Eq, Hash, Ord, PartialEq, PartialOrd, Structural)]
pub struct CalendarDate {
    pub year: Year,
    pub month: Month,
    pub day_of_month: DayOfMonth,
}

/// A calendar date under its other customary name.
pub type Date = CalendarDate;

/// Failure of reading a calendar date out of `YYYY-MM-DD` text.
#[derive(Clone, Copy, Debug, Eq, PartialEq, Structural)]
pub enum ParseDateError {
    InvalidDayOfMonth,
    InvalidFormat,
    InvalidLength,
    ParseDayOfMonth(ParseDayOfMonthError),
    ParseMonth(ParseMonthError),
    ParseYear(ParseYearError),
}

/// A day-of-month that its month does not have (day 31 of a 30-day month,
/// day 29 of February in a common year).
#[derive(Clone, Copy, Debug, Eq, PartialEq, Structural)]
pub struct InvalidDateError;

/// What a calendar date parsed out of `YYYY-MM-DD` text must be.
pub open spec fn spec_parse_date(s: Seq<char>) -> Result<CalendarDate, ParseDateError> {
    if s.len() != 10 {
        Err(ParseDateError::InvalidLength)
    } else {
        match spec_parse_year(s.subrange(0, 4)) {
            Err(e) => Err(ParseDateError::ParseYear(e)),
            Ok(year) => {
                if s[4] != '-' {
                    Err(ParseDateError::InvalidFormat)
                } else {
                    match spec_parse_month(s.subrange(5, 7)) {
                        Err(e) => Err(ParseDateError::ParseMonth(e)),
                        Ok(month) => {
                            if s[7] != '-' {
                                Err(ParseDateError::InvalidFormat)
                            } else {
                                match spec_parse_day_of_month(s.subrange(8, 10)) {
                                    Err(e) => Err(ParseDateError::ParseDayOfMonth(e)),
                                    Ok(day_of_month) => {
                                        if day_of_month@ <= spec_days_in_month(
                                            spec_is_leap_year(year@),
                                            month@,
                                        ) {
                                            Ok(CalendarDate { year, month, day_of_month })
                                        } else {
                                            Err(ParseDateError::InvalidDayOfMonth)
                                        }
                                    },
                                }
                            }
                        },
                    }
                }
            },
        }
    }
}

/// The ordinal date naming the same day as `date`: the lengths of the
/// months before `date`'s month, plus its day of the month.
pub open spec fn spec_ordinal_date_of_date(date: CalendarDate) -> OrdinalDate {
    OrdinalDate {
        year: date.year,
        day_of_year: DayOfYear(
            (spec_days_before_month(spec_is_leap_year(date.year@), date.month@)
                + date.day_of_month@) as u16,
        ),
    }
}

/// The calendar date naming the same day as the ordinal date `o`, by the
/// month-length table; a value outside the ordinal-date invariant maps to
/// January 1 of its year field.
pub open spec fn spec_date_of_ordinal_date(o: OrdinalDate) -> CalendarDate {
    if o.inv() {
        let (m, dom) = spec_month_day_of_ordinal(spec_is_leap_year(o.year@), o.day_of_year@);
        CalendarDate { year: o.year, month: Month(m as u8), day_of_month: DayOfMonth(dom as u8) }
    } else {
        CalendarDate { year: o.year, month: Month(1), day_of_month: DayOfMonth(1) }
    }
}

/// Converting a calendar date to its ordinal date and back yields the
/// date itself: the two representations name the same days.
pub proof fn lemma_date_ordinal_round_trip(date: CalendarDate)
    requires
        date.inv(),
    ensures
        spec_date_of_ordinal_date(spec_ordinal_date_of_date(date)) == date,
{
    let leap = spec_is_leap_year(date.year@);
    let m = date.month@;
    let dom = date.day_of_month@;
    lemma_days_before_month_increases(leap, m + 1, 13);
    lemma_days_before_month_total(leap);
    assert(spec_days_before_month(leap, m + 1) == spec_days_before_month(leap, m)
        + spec_days_in_month(leap, m));
    lemma_month_day_round_trip(leap, m, dom);
}

/// Converting a valid ordinal date to its calendar date and back yields
/// the ordinal date itself.
pub proof fn lemma_ordinal_date_date_round_trip(o: OrdinalDate)
    requires
        o.inv(),
    ensures
        spec_ordinal_date_of_date(spec_date_of_ordinal_date(o)) == o,
{
    let leap = spec_is_leap_year(o.year@);
    lemma_days_before_month_total(leap);
    crate::engine::lemma_month_day_of_ordinal_characterization(leap, o.day_of_year@);
}

impl CalendarDate {
    /// All three fields lie in their ranges and the day exists in the
    /// month of the year.
    pub open spec fn inv(&self) -> bool {
        self.year.inv() && self.month.inv() && self.day_of_month.inv() && self.day_of_month@
            <= spec_days_in_month(spec_is_leap_year(self.year@), self.month@)
    }

    /// Day 1 of `year_month`.
    pub fn first_date_of_month(year_month: YearMonth) -> (r: Self)
        requires
            year_month.inv(),
        ensures
            r.year == year_month.year && r.month == year_month.month && r.day_of_month@ == 1
                && r.inv(),
    {
        Self {
            year: year_month.year(),
            month: year_month.month(),
            day_of_month: year_month.first_day_of_month(),
        }
    }

    /// January 1 of `year`.
    pub fn first_date_of_year(year: Year) -> (r: Self)
        requires
            year.inv(),
        ensures
            r.year == year && r.month@ == 1 && r.day_of_month@ == 1 && r.inv(),
    {
        let year_month = YearMonth::first_year_month_of_year(year);
        Self::first_date_of_month(year_month)
    }

    /// The last day of `year_month`.
    pub fn last_date_of_month(year_month: YearMonth) -> (r: Self)
        requires
            year_month.inv(),
        ensures
            r.year == year_month.year && r.month == year_month.month && r.day_of_month@
                == year_month.spec_days() && r.inv(),
    {
        Self {
            year: year_month.year(),
            month: year_month.month(),
            day_of_month: year_month.last_day_of_month(),
        }
    }

    /// December 31 of `year`.
    pub fn last_date_of_year(year: Year) -> (r: Self)
        requires
            year.inv(),
        ensures
            r.year == year && r.month@ == 12 && r.day_of_month@ == 31 && r.inv(),
    {
        let year_month = YearMonth::last_year_month_of_year(year);
        Self::last_date_of_month(year_month)
    }

    /// Builds a date from its three fields; rejects a day the month does
    /// not have.
    pub fn from_ymd(year: Year, month: Month, day_of_month: DayOfMonth) -> (r: Result<
        Self,
        InvalidDateError,
    >)
        requires
            year.inv(),
            month.inv(),
            day_of_month.inv(),
        ensures
            day_of_month@ <= spec_days_in_month(spec_is_leap_year(year@), month@) ==> (r matches
                Ok(d) && d == (CalendarDate { year, month, day_of_month }) && d.inv()),
            day_of_month@ > spec_days_in_month(spec_is_leap_year(year@), month@) ==> r == Err::<
                Self,
                _,
            >(InvalidDateError),
    {
        let year_month = YearMonth::new(year, month);
        let last = year_month.last_day_of_month();
        if day_of_month.0 > last.0 {
            return Err(InvalidDateError);
        }
        Ok(Self { year, month, day_of_month })
    }

    /// The day of the month.
    pub fn day_of_month(&self) -> (r: DayOfMonth)
        ensures
            r == self.day_of_month,
    {
        self.day_of_month
    }

    /// The month of the year.
    pub fn month(&self) -> (r: Month)
        ensures
            r == self.month,
    {
        self.month
    }

    /// The year.
    pub fn year(&self) -> (r: Year)
        ensures
            r == self.year,
    {
        self.year
    }

    /// The year and month this date falls in.
    pub fn year_month(&self) -> (r: YearMonth)
        ensures
            r.year == self.year && r.month == self.month,
    {
        YearMonth::new(self.year, self.month)
    }

    /// The day before this one, borrowing from the month and year at each
    /// boundary; `None` for 1970-01-01.
    pub fn pred(&self) -> (r: Option<Self>)
        requires
            self.inv(),
        ensures
            self.day_of_month@ > 1 ==> (r matches Some(p) && p.year == self.year && p.month
                == self.month && p.day_of_month@ == self.day_of_month@ - 1 && p.inv()),
            self.day_of_month@ == 1 && self.month@ > 1 ==> (r matches Some(p) && p.year
                == self.year && p.month@ == self.month@ - 1 && p.day_of_month@
                == spec_days_in_month(spec_is_leap_year(self.year@), self.month@ - 1) && p.inv()),
            self.day_of_month@ == 1 && self.month@ == 1 && self.year@ > 1970 ==> (r matches Some(p)
                && p.year@ == self.year@ - 1 && p.month@ == 12 && p.day_of_month@ == 31
                && p.inv()),
            self.day_of_month@ == 1 && self.month@ == 1 && self.year@ == 1970 ==> r is None,
    {
        if self.day_of_month.0 == 1 {
            match self.year_month().pred() {
                Some(prev) => Some(Self::last_date_of_month(prev)),
                None => None,
            }
        } else {
            Some(
                Self {
                    year: self.year,
                    month: self.month,
                    day_of_month: DayOfMonth(self.day_of_month.0 - 1),
                },
            )
        }
    }

    /// The day after this one, carrying into the month and year at each
    /// boundary; `None` for 9999-12-31.
    pub fn succ(&self) -> (r: Option<Self>)
        requires
            self.inv(),
        ensures
            self.day_of_month@ < spec_days_in_month(spec_is_leap_year(self.year@), self.month@)
                ==> (r matches Some(p) && p.year == self.year && p.month == self.month
                && p.day_of_month@ == self.day_of_month@ + 1 && p.inv()),
            self.day_of_month@ == spec_days_in_month(spec_is_leap_year(self.year@), self.month@)
                && self.month@ < 12 ==> (r matches Some(p) && p.year == self.year && p.month@
                == self.month@ + 1 && p.day_of_month@ == 1 && p.inv()),
            self.day_of_month@ == spec_days_in_month(spec_is_leap_year(self.year@), self.month@)
                && self.month@ == 12 && self.year@ < 9999 ==> (r matches Some(p) && p.year@
                == self.year@ + 1 && p.month@ == 1 && p.day_of_month@ == 1 && p.inv()),
            self.day_of_month@ == spec_days_in_month(spec_is_leap_year(self.year@), self.month@)
                && self.month@ == 12 && self.year@ == 9999 ==> r is None,
    {
        let last = self.year_month().last_day_of_month();
        if self.day_of_month.0 == last.0 {
            match self.year_month().succ() {
                Some(next) => Some(Self::first_date_of_month(next)),
                None => None,
            }
        } else {
            Some(
                Self {
                    year: self.year,
                    month: self.month,
                    day_of_month: DayOfMonth(self.day_of_month.0 + 1),
                },
            )
        }
    }

    /// How many days this date lies after 1970-01-01.
    pub fn days_from_unix_epoch(&self) -> (r: Days)
        requires
            self.inv(),
        ensures
            r@ == spec_days_from_ce_of_ordinal_date(
                self.year@,
                spec_days_before_month(spec_is_leap_year(self.year@), self.month@)
                    + self.day_of_month@,
            ) - 719_163,
            r.inv(),
    {
        let ordinal = crate::engine::ordinal_date_from_date(
            (self.year.0 as i64, self.month.0 as i64, self.day_of_month.0 as i64),
        );
        let days_from_ce = crate::engine::days_from_ce_from_ordinal_date(ordinal);
        proof {
            lemma_days_from_ce_closed_form(1969);
            lemma_days_from_ce_closed_form(9999);
            lemma_days_from_ce_increases(1969, self.year@ - 1);
            lemma_days_from_ce_increases(self.year@, 9999);
            assert(crate::engine::spec_days_from_ce_of_year(self.year@)
                == crate::engine::spec_days_from_ce_of_year(self.year@ - 1) + spec_days_in_year(
                self.year@,
            ));
        }
        Days((days_from_ce - 719_163) as u32)
    }

    /// Reads a calendar date out of canonical `YYYY-MM-DD` text.
    pub fn parse(s: &str) -> (r: Result<Self, ParseDateError>)
        ensures
            r == spec_parse_date(s@),
            r matches Ok(d) ==> d.inv(),
    {
        if s.unicode_len() != 10 {
            return Err(ParseDateError::InvalidLength);
        }
        let year = match Year::parse(s.substring_char(0, 4)) {
            Ok(year) => year,
            Err(e) => {
                return Err(ParseDateError::ParseYear(e));
            },
        };
        if s.get_char(4) != '-' {
            return Err(ParseDateError::InvalidFormat);
        }
        let month = match Month::parse(s.substring_char(5, 7)) {
            Ok(month) => month,
            Err(e) => {
                return Err(ParseDateError::ParseMonth(e));
            },
        };
        if s.get_char(7) != '-' {
            return Err(ParseDateError::InvalidFormat);
        }
        let day_of_month = match DayOfMonth::parse(s.substring_char(8, 10)) {
            Ok(day_of_month) => day_of_month,
            Err(e) => {
                return Err(ParseDateError::ParseDayOfMonth(e));
            },
        };
        let last = YearMonth::new(year, month).last_day_of_month();
        if day_of_month.0 > last.0 {
            return Err(ParseDateError::InvalidDayOfMonth);
        }
        Ok(Self { year, month, day_of_month })
    }

    /// The canonical `YYYY-MM-DD` text form.
    pub fn to_string(&self) -> (r: String)
        requires
            self.inv(),
        ensures
            r@ == spec_dec4(self.year@) + seq!['-'] + spec_dec2(self.month@) + seq!['-']
                + spec_dec2(self.day_of_month@),
    {
        let mut out = String::new();
        push_4_digits(&mut out, self.year.0 as u64);
        proof {
            reveal_strlit("-");
        }
        out.append("-");
        push_2_digits(&mut out, self.month.0 as u64);
        out.append("-");
        push_2_digits(&mut out, self.day_of_month.0 as u64);
        proof {
            assert(out@ =~= spec_dec4(self.year@) + seq!['-'] + spec_dec2(self.month@) + seq!['-']
                + spec_dec2(self.day_of_month@));
        }
        out
    }
}

impl std::str::FromStr for CalendarDate {
    type Err = ParseDateError;

    fn from_str(s: &str) -> Result<Self, Self::Err> {
        CalendarDate::parse(s)
    }
}

impl From<CalendarDate> for OrdinalDate {
    fn from(date: CalendarDate) -> (r: OrdinalDate) {
        let leap = date.year.is_leap_year();
        let mut k: u8 = 1;
        let mut days: u32 = 0;
        while k < date.month.0
            invariant
                1 <= k,
                k <= date.month.0 || date.month.0 == 0,
                date.month.0 == 0 ==> k == 1,
                days == spec_days_before_month(leap, k as int),
                days <= 31 * (k - 1),
            decreases date.month.0 - k,
        {
            days = days + crate::engine::days_in_month_of(leap, k as i64) as u32;
            k = k + 1;
        }
        proof {
            if date.month.0 == 0 {
                assert(spec_days_before_month(leap, 0) == 0);
                assert(spec_days_before_month(leap, 1) == 0);
            }
            assert(days == spec_days_before_month(leap, date.month@));
        }
        let day_of_year = days as u16 + date.day_of_month.0 as u16;
        proof {
            assert(day_of_year as int == spec_days_before_month(leap, date.month@)
                + date.day_of_month@);
            assert(OrdinalDate { year: date.year, day_of_year: DayOfYear(day_of_year) }
                == spec_ordinal_date_of_date(date));
        }
        OrdinalDate { year: date.year, day_of_year: DayOfYear(day_of_year) }
    }
}

impl vstd::std_specs::convert::FromSpecImpl<CalendarDate> for OrdinalDate {
    open spec fn obeys_from_spec() -> bool {
        true
    }

    open spec fn from_spec(date: CalendarDate) -> OrdinalDate {
        spec_ordinal_date_of_date(date)
    }
}

impl From<OrdinalDate> for CalendarDate {
    fn from(ordinal_date: OrdinalDate) -> (r: CalendarDate) {
        let valid = 1970 <= ordinal_date.year.0 && ordinal_date.year.0 <= 9999 && 1
            <= ordinal_date.day_of_year.0 && ordinal_date.day_of_year.0 <= 366
            && ordinal_date.day_of_year.0 <= ordinal_date.year.last_day_of_year().0;
        if valid {
            let (_, month, day_of_month) = crate::engine::date_from_ordinal_date(
                (ordinal_date.year.0 as i64, ordinal_date.day_of_year.0 as i64),
            );
            CalendarDate {
                year: ordinal_date.year,
                month: Month(month as u8),
                day_of_month: DayOfMonth(day_of_month as u8),
            }
        } else {
            CalendarDate {
                year: ordinal_date.year,
                month: Month(1),
                day_of_month: DayOfMonth(1),
            }
        }
    }
}

impl vstd::std_specs::convert::FromSpecImpl<OrdinalDate> for CalendarDate {
    open spec fn obeys_from_spec() -> bool {
        true
    }

    open spec fn from_spec(ordinal_date: OrdinalDate) -> CalendarDate {
        spec_date_of_ordinal_date(ordinal_date)
    }
}

} // verus!
