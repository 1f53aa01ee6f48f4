//! The ordinal-date composite: a year paired with a day of that year.

use vstd::prelude::*;

verus! {

use crate::date::day_of_year::{DayOfYear, ParseDayOfYearError, spec_parse_day_of_year};
use crate::date::year::{ParseYearError, Year, spec_parse_year};
use crate::engine::spec_days_in_year;
use crate::text::{push_3_digits, push_4_digits, spec_dec3, spec_dec4};
use vstd::string::StrSliceExecFns;
use vstd::string::StringExecFns;

/// A specific day of the supported span named by its year and its day
/// number within that year.
#[derive(Clone, Copy, Debug, Eq, Hash, Ord, PartialEq, PartialOrd, Structural)]
pub struct OrdinalDate {
    pub year: Year,
    pub day_of_year: DayOfYear,
}

/// A day-of-year that its year does not have (day 366 of a common year).
#[derive(Clone, Copy, Debug, Eq, PartialEq, Structural)]
pub struct InvalidOrdinalDateError;

/// Failure of reading an ordinal date out of `YYYY-DDD` text.
#[derive(Clone, Copy, Debug, Eq, PartialEq, Structural)]
pub enum ParseOrdinalDateError {
    InvalidDayOfYear,
    InvalidFormat,
    InvalidLength,
    ParseYear(ParseYearError),
    ParseDayOfYear(ParseDayOfYearError),
}

/// What an ordinal date parsed out of `YYYY-DDD` text must be.
pub open spec fn spec_parse_ordinal_date(s: Seq<char>) -> Result<
    OrdinalDate,
    ParseOrdinalDateError,
> {
    if s.len() != 8 {
        Err(ParseOrdinalDateError::InvalidLength)
    } else {
        match spec_parse_year(s.subrange(0, 4)) {
            Err(e) => Err(ParseOrdinalDateError::ParseYear(e)),
            Ok(year) => {
                if s[4] != '-' {
                    Err(ParseOrdinalDateError::InvalidFormat)
                } else {
                    match spec_parse_day_of_year(s.subrange(5, 8)) {
                        Err(e) => Err(ParseOrdinalDateError::ParseDayOfYear(e)),
                        Ok(day_of_year) => {
                            if day_of_year@ <= spec_days_in_year(year@) {
                                Ok(OrdinalDate { year, day_of_year })
                            } else {
                                Err(ParseOrdinalDateError::InvalidDayOfYear)
                            }
                        },
                    }
                }
            },
        }
    }
}

impl OrdinalDate {
    /// Both fields lie in their ranges and the day exists in the year.
    pub open spec fn inv(&self) -> bool {
        self.year.inv() && self.day_of_year.inv() && self.day_of_year@ <= spec_days_in_year(
            self.year@,
        )
    }

    /// Pairs a year with a day of that year; rejects a day the year does
    /// not have.
    pub fn new(year: Year, day_of_year: DayOfYear) -> (r: Result<Self, InvalidOrdinalDateError>)
        requires
            year.inv(),
            day_of_year.inv(),
        ensures
            day_of_year@ <= spec_days_in_year(year@) ==> (r matches Ok(o) && o == (OrdinalDate {
                year,
                day_of_year,
            }) && o.inv()),
            day_of_year@ > spec_days_in_year(year@) ==> r == Err::<Self, _>(
                InvalidOrdinalDateError,
            ),
    {
        let last = year.last_day_of_year();
        if day_of_year.0 <= last.0 {
            Ok(Self { year, day_of_year })
        } else {
            Err(InvalidOrdinalDateError)
        }
    }

    /// The year of this day.
    pub fn year(&self) -> (r: Year)
        ensures
            r == self.year,
    {
        self.year
    }

    /// Which day of its year this is.
    pub fn day_of_year(&self) -> (r: DayOfYear)
        ensures
            r == self.day_of_year,
    {
        self.day_of_year
    }

    /// Reads an ordinal date out of canonical `YYYY-DDD` text.
    pub fn parse(s: &str) -> (r: Result<Self, ParseOrdinalDateError>)
        ensures
            r == spec_parse_ordinal_date(s@),
            r matches Ok(o) ==> o.inv(),
    {
        if s.unicode_len() != 8 {
            return Err(ParseOrdinalDateError::InvalidLength);
        }
        let year = match Year::parse(s.substring_char(0, 4)) {
            Ok(year) => year,
            Err(e) => {
                return Err(ParseOrdinalDateError::ParseYear(e));
            },
        };
        if s.get_char(4) != '-' {
            return Err(ParseOrdinalDateError::InvalidFormat);
        }
        let day_of_year = match DayOfYear::parse(s.substring_char(5, 8)) {
            Ok(day_of_year) => day_of_year,
            Err(e) => {
                return Err(ParseOrdinalDateError::ParseDayOfYear(e));
            },
        };
        let last = year.last_day_of_year();
        if day_of_year.0 <= last.0 {
            Ok(Self { year, day_of_year })
        } else {
            Err(ParseOrdinalDateError::InvalidDayOfYear)
        }
    }

    /// The canonical `YYYY-DDD` text form.
    pub fn to_string(&self) -> (r: String)
        requires
            self.inv(),
        ensures
            r@ == spec_dec4(self.year@) + seq!['-'] + spec_dec3(self.day_of_year@),
    {
        let mut out = String::new();
        push_4_digits(&mut out, self.year.0 as u64);
        proof {
            reveal_strlit("-");
        }
        out.append("-");
        push_3_digits(&mut out, self.day_of_year.0 as u64);
        proof {
            assert(out@ =~= spec_dec4(self.year@) + seq!['-'] + spec_dec3(self.day_of_year@));
        }
        out
    }
}

impl std::str::FromStr for OrdinalDate {
    type Err = ParseOrdinalDateError;

    fn from_str(s: &str) -> Result<Self, Self::Err> {
        OrdinalDate::parse(s)
    }
}

} // verus!
