//! The year-and-month composite: any valid year paired with any valid
//! month.

use vstd::prelude::*;

verus! {

use crate::date::day_of_month::DayOfMonth;
use crate::date::month::{Month, ParseMonthError, spec_parse_month};
use crate::date::year::{ParseYearError, Year, spec_parse_year};
use crate::duration::days::Days;
use crate::engine::{spec_days_in_month, spec_is_leap_year};
use crate::text::{push_2_digits, push_4_digits, spec_dec2, spec_dec4};
use vstd::string::StrSliceExecFns;
use vstd::string::StringExecFns;

/// A month of a calendar year; every pairing of a valid year and a valid
/// month is itself valid.
#[derive(Clone, Copy, Debug, Eq, Hash, Ord, PartialEq, PartialOrd, Structural)]
pub struct YearMonth {
    pub year: Year,
    pub month: Month,
}

/// Failure of reading a year and month out of `YYYY-MM` text.
#[derive(Clone, Copy, Debug, Eq, PartialEq, Structural)]
pub enum ParseYearMonthError {
    InvalidFormat,
    InvalidLength,
    ParseYear(ParseYearError),
    ParseMonth(ParseMonthError),
}

/// What a year and month parsed out of `YYYY-MM` text must be.
pub open spec fn spec_parse_year_month(s: Seq<char>) -> Result<YearMonth, ParseYearMonthError> {
    if s.len() != 7 {
        Err(ParseYearMonthError::InvalidLength)
    } else {
        match spec_parse_year(s.subrange(0, 4)) {
            Err(e) => Err(ParseYearMonthError::ParseYear(e)),
            Ok(year) => {
                if s[4] != '-' {
                    Err(ParseYearMonthError::InvalidFormat)
                } else {
                    match spec_parse_month(s.subrange(5, 7)) {
                        Err(e) => Err(ParseYearMonthError::ParseMonth(e)),
                        Ok(month) => Ok(YearMonth { year, month }),
                    }
                }
            },
        }
    }
}

impl YearMonth {
    /// Both fields lie in their ranges.
    pub open spec fn inv(&self) -> bool {
        self.year.inv() && self.month.inv()
    }

    /// The number of days in this month of this year.
    pub open spec fn spec_days(&self) -> int {
        spec_days_in_month(spec_is_leap_year(self.year@), self.month@)
    }

    /// Pairs a year with a month; every pairing is valid.
    pub fn new(year: Year, month: Month) -> (r: Self)
        ensures
            r == (YearMonth { year, month }),
    {
        Self { year, month }
    }

    /// January of `year`.
    pub fn first_year_month_of_year(year: Year) -> (r: Self)
        ensures
            r.year == year && r.month@ == 1,
    {
        Self { year, month: Month::january() }
    }

    /// December of `year`.
    pub fn last_year_month_of_year(year: Year) -> (r: Self)
        ensures
            r.year == year && r.month@ == 12,
    {
        Self { year, month: Month::december() }
    }

    /// The year of this month.
    pub fn year(&self) -> (r: Year)
        ensures
            r == self.year,
    {
        self.year
    }

    /// The month of the year.
    pub fn month(&self) -> (r: Month)
        ensures
            r == self.month,
    {
        self.month
    }

    /// The first day of this month: day 1.
    pub fn first_day_of_month(&self) -> (r: DayOfMonth)
        ensures
            r@ == 1 && r.inv(),
    {
        DayOfMonth(1)
    }

    /// The last day of this month: its leap-aware length.
    pub fn last_day_of_month(&self) -> (r: DayOfMonth)
        requires
            self.inv(),
        ensures
            r@ == self.spec_days() && r.inv(),
    {
        let leap = self.year.is_leap_year();
        let dim = crate::engine::days_in_month_of(leap, self.month.0 as i64);
        DayOfMonth(dim as u8)
    }

    /// How many days this month has.
    pub fn days(&self) -> (r: Days)
        requires
            self.inv(),
        ensures
            r@ == self.spec_days() && r.inv(),
    {
        let leap = self.year.is_leap_year();
        let dim = crate::engine::days_in_month_of(leap, self.month.0 as i64);
        Days(dim as u32)
    }

    /// The month before this one, borrowing from the year at January;
    /// `None` for January 1970.
    pub fn pred(&self) -> (r: Option<Self>)
        requires
            self.inv(),
        ensures
            self.month@ > 1 ==> (r matches Some(p) && p.year == self.year && p.month@
                == self.month@ - 1 && p.inv()),
            self.month@ == 1 && self.year@ > 1970 ==> (r matches Some(p) && p.year@ == self.year@
                - 1 && p.month@ == 12 && p.inv()),
            self.month@ == 1 && self.year@ == 1970 ==> r is None,
    {
        match self.month.pred() {
            Some(month) => Some(Self { year: self.year, month }),
            None => match self.year.pred() {
                Some(year) => Some(Self { year, month: Month::december() }),
                None => None,
            },
        }
    }

    /// The month after this one, carrying into the year at December;
    /// `None` for December 9999.
    pub fn succ(&self) -> (r: Option<Self>)
        requires
            self.inv(),
        ensures
            self.month@ < 12 ==> (r matches Some(p) && p.year == self.year && p.month@
                == self.month@ + 1 && p.inv()),
            self.month@ == 12 && self.year@ < 9999 ==> (r matches Some(p) && p.year@ == self.year@
                + 1 && p.month@ == 1 && p.inv()),
            self.month@ == 12 && self.year@ == 9999 ==> r is None,
    {
        match self.month.succ() {
            Some(month) => Some(Self { year: self.year, month }),
            None => match self.year.succ() {
                Some(year) => Some(Self { year, month: Month::january() }),
                None => None,
            },
        }
    }

    /// Reads a year and month out of canonical `YYYY-MM` text.
    pub fn parse(s: &str) -> (r: Result<Self, ParseYearMonthError>)
        ensures
            r == spec_parse_year_month(s@),
            r matches Ok(ym) ==> ym.inv(),
    {
        if s.unicode_len() != 7 {
            return Err(ParseYearMonthError::InvalidLength);
        }
        let year = match Year::parse(s.substring_char(0, 4)) {
            Ok(year) => year,
            Err(e) => {
                return Err(ParseYearMonthError::ParseYear(e));
            },
        };
        if s.get_char(4) != '-' {
            return Err(ParseYearMonthError::InvalidFormat);
        }
        let month = match Month::parse(s.substring_char(5, 7)) {
            Ok(month) => month,
            Err(e) => {
                return Err(ParseYearMonthError::ParseMonth(e));
            },
        };
        Ok(Self { year, month })
    }

    /// The canonical `YYYY-MM` text form.
    pub fn to_string(&self) -> (r: String)
        requires
            self.inv(),
        ensures
            r@ == spec_dec4(self.year@) + seq!['-'] + spec_dec2(self.month@),
    {
        let mut out = String::new();
        push_4_digits(&mut out, self.year.0 as u64);
        proof {
            reveal_strlit("-");
        }
        out.append("-");
        push_2_digits(&mut out, self.month.0 as u64);
        proof {
            assert(out@ =~= spec_dec4(self.year@) + seq!['-'] + spec_dec2(self.month@));
        }
        out
    }
}

impl std::str::FromStr for YearMonth {
    type Err = ParseYearMonthError;

    fn from_str(s: &str) -> Result<Self, Self::Err> {
        YearMonth::parse(s)
    }
}

} // verus!
