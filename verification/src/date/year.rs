//! The calendar-year scalar: 1970 through 9999.

use vstd::prelude::*;

verus! {
use crate::text::{parse_digits, push_4_digits, spec_all_digits, spec_dec4, spec_digits_val};
use crate::date::day_of_year::DayOfYear;
use crate::duration::days::Days;
use crate::engine::{spec_days_in_year, spec_is_leap_year};

/// A calendar year of the supported span, 1970 through 9999.
#[derive(Clone, Copy, Debug, Eq, Hash, Ord, PartialOrd, PartialEq, Structural)]
pub struct Year(pub u16);

/// Failure of reading a year out of its four-digit text form.
#[derive(Clone, Copy, Debug, Eq, PartialEq, Structural)]
pub enum ParseYearError {
    InvalidDigit,
    InvalidLength,
    OutOfRange,
}

/// Failure of a range-checked numeric conversion into `Year`.
#[derive(Clone, Copy, Debug, Eq, PartialEq, Structural)]
pub enum TryFromYearError {
    OutOfRange,
}

impl View for Year {
    type V = int;

    open spec fn view(&self) -> int {
        self.0 as int
    }
}

/// What a year parsed out of four-digit text must be.
pub open spec fn spec_parse_year(s: Seq<char>) -> Result<Year, ParseYearError> {
    if s.len() != 4 {
        Err(ParseYearError::InvalidLength)
    } else if !spec_all_digits(s) {
        Err(ParseYearError::InvalidDigit)
    } else if 1970 <= spec_digits_val(s) <= 9999 {
        Ok(Year(spec_digits_val(s) as u16))
    } else {
        Err(ParseYearError::OutOfRange)
    }
}

impl Year {
    /// The value lies in the year range.
    pub open spec fn inv(&self) -> bool {
        1970 <= self.0 <= 9999
    }

    /// The first day of this year: day 1.
    pub fn first_day_of_year(&self) -> (r: DayOfYear)
        ensures
            r@ == 1 && r.inv(),
    {
        DayOfYear::min()
    }

    /// The last day of this year: day 365, or day 366 when the year is
    /// leap.
    pub fn last_day_of_year(&self) -> (r: DayOfYear)
        ensures
            r@ == spec_days_in_year(self@) && r.inv(),
    {
        if self.is_leap_year() {
            DayOfYear::max_in_leap_year()
        } else {
            DayOfYear::max_in_common_year()
        }
    }

    /// How many days this year has: 365, or 366 when the year is leap.
    pub fn days(&self) -> (r: Days)
        ensures
            r@ == spec_days_in_year(self@) && r.inv(),
    {
        if self.is_leap_year() {
            Days(366)
        } else {
            Days(365)
        }
    }

    /// Whether this year is a Gregorian leap year.
    pub fn is_leap_year(&self) -> (r: bool)
        ensures
            r == spec_is_leap_year(self@),
    {
        (self.0 % 400 == 0) || ((self.0 % 100 != 0) && (self.0 % 4 == 0))
    }

    /// The year before this one; `None` for 1970.
    pub fn pred(&self) -> (r: Option<Self>)
        requires
            self.inv(),
        ensures
            self@ > 1970 ==> (r matches Some(p) && p@ == self@ - 1 && p.inv()),
            self@ == 1970 ==> r is None,
    {
        if self.0 > 1970 {
            Some(Self(self.0 - 1))
        } else {
            None
        }
    }

    /// The year after this one; `None` for 9999.
    pub fn succ(&self) -> (r: Option<Self>)
        requires
            self.inv(),
        ensures
            self@ < 9999 ==> (r matches Some(p) && p@ == self@ + 1 && p.inv()),
            self@ == 9999 ==> r is None,
    {
        if self.0 < 9999 {
            Some(Self(self.0 + 1))
        } else {
            None
        }
    }

    /// Reads a year out of its canonical four-digit text form.
    pub fn parse(s: &str) -> (r: Result<Self, ParseYearError>)
        ensures
            r == spec_parse_year(s@),
            r matches Ok(v) ==> v.inv(),
    {
        if s.unicode_len() != 4 {
            return Err(ParseYearError::InvalidLength);
        }
        match parse_digits(s) {
            None => Err(ParseYearError::InvalidDigit),
            Some(v) => {
                proof {
                    crate::text::lemma_digits_val_bound(s@);
                    reveal_with_fuel(crate::text::spec_pow10, 5);
                }
                if 1970 <= v && v <= 9999 {
                    Ok(Self(v as u16))
                } else {
                    Err(ParseYearError::OutOfRange)
                }
            },
        }
    }

    /// The canonical four-digit zero-padded text form.
    pub fn to_string(&self) -> (r: String)
        requires
            self.inv(),
        ensures
            r@ == spec_dec4(self@),
    {
        let mut out = String::new();
        push_4_digits(&mut out, self.0 as u64);
        proof {
            assert(out@ =~= spec_dec4(self@));
        }
        out
    }
}

impl std::str::FromStr for Year {
    type Err = ParseYearError;

    fn from_str(s: &str) -> Result<Self, Self::Err> {
        Year::parse(s)
    }
}

impl From<Year> for i16 {
    fn from(year: Year) -> (r: i16) {
        year.0 as i16
    }
}

impl vstd::std_specs::convert::FromSpecImpl<Year> for i16 {
    open spec fn obeys_from_spec() -> bool {
        true
    }

    open spec fn from_spec(year: Year) -> i16 {
        year.0 as i16
    }
}

impl From<Year> for i32 {
    fn from(year: Year) -> (r: i32) {
        year.0 as i32
    }
}

impl vstd::std_specs::convert::FromSpecImpl<Year> for i32 {
    open spec fn obeys_from_spec() -> bool {
        true
    }

    open spec fn from_spec(year: Year) -> i32 {
        year.0 as i32
    }
}

impl From<Year> for i64 {
    fn from(year: Year) -> (r: i64) {
        year.0 as i64
    }
}

impl vstd::std_specs::convert::FromSpecImpl<Year> for i64 {
    open spec fn obeys_from_spec() -> bool {
        true
    }

    open spec fn from_spec(year: Year) -> i64 {
        year.0 as i64
    }
}

impl From<Year> for u16 {
    fn from(year: Year) -> (r: u16) {
        year.0
    }
}

impl vstd::std_specs::convert::FromSpecImpl<Year> for u16 {
    open spec fn obeys_from_spec() -> bool {
        true
    }

    open spec fn from_spec(year: Year) -> u16 {
        year.0
    }
}

impl From<Year> for u32 {
    fn from(year: Year) -> (r: u32) {
        year.0 as u32
    }
}

impl vstd::std_specs::convert::FromSpecImpl<Year> for u32 {
    open spec fn obeys_from_spec() -> bool {
        true
    }

    open spec fn from_spec(year: Year) -> u32 {
        year.0 as u32
    }
}

impl From<Year> for u64 {
    fn from(year: Year) -> (r: u64) {
        year.0 as u64
    }
}

impl vstd::std_specs::convert::FromSpecImpl<Year> for u64 {
    open spec fn obeys_from_spec() -> bool {
        true
    }

    open spec fn from_spec(year: Year) -> u64 {
        year.0 as u64
    }
}

impl TryFrom<i16> for Year {
    type Error = TryFromYearError;

    fn try_from(value: i16) -> (r: Result<Self, Self::Error>) {
        if 1970 <= value && value <= 9999 {
            Ok(Self(value as u16))
        } else {
            Err(TryFromYearError::OutOfRange)
        }
    }
}

impl vstd::std_specs::convert::TryFromSpecImpl<i16> for Year {
    open spec fn obeys_try_from_spec() -> bool {
        true
    }

    open spec fn try_from_spec(value: i16) -> Result<Self, TryFromYearError> {
        if 1970 <= value && value <= 9999 {
            Ok(Year(value as u16))
        } else {
            Err(TryFromYearError::OutOfRange)
        }
    }
}

impl TryFrom<i32> for Year {
    type Error = TryFromYearError;

    fn try_from(value: i32) -> (r: Result<Self, Self::Error>) {
        if 1970 <= value && value <= 9999 {
            Ok(Self(value as u16))
        } else {
            Err(TryFromYearError::OutOfRange)
        }
    }
}

impl vstd::std_specs::convert::TryFromSpecImpl<i32> for Year {
    open spec fn obeys_try_from_spec() -> bool {
        true
    }

    open spec fn try_from_spec(value: i32) -> Result<Self, TryFromYearError> {
        if 1970 <= value && value <= 9999 {
            Ok(Year(value as u16))
        } else {
            Err(TryFromYearError::OutOfRange)
        }
    }
}

impl TryFrom<i64> for Year {
    type Error = TryFromYearError;

    fn try_from(value: i64) -> (r: Result<Self, Self::Error>) {
        if 1970 <= value && value <= 9999 {
            Ok(Self(value as u16))
        } else {
            Err(TryFromYearError::OutOfRange)
        }
    }
}

impl vstd::std_specs::convert::TryFromSpecImpl<i64> for Year {
    open spec fn obeys_try_from_spec() -> bool {
        true
    }

    open spec fn try_from_spec(value: i64) -> Result<Self, TryFromYearError> {
        if 1970 <= value && value <= 9999 {
            Ok(Year(value as u16))
        } else {
            Err(TryFromYearError::OutOfRange)
        }
    }
}

impl TryFrom<u16> for Year {
    type Error = TryFromYearError;

    fn try_from(value: u16) -> (r: Result<Self, Self::Error>) {
        if 1970 <= value && value <= 9999 {
            Ok(Self(value))
        } else {
            Err(TryFromYearError::OutOfRange)
        }
    }
}

impl vstd::std_specs::convert::TryFromSpecImpl<u16> for Year {
    open spec fn obeys_try_from_spec() -> bool {
        true
    }

    open spec fn try_from_spec(value: u16) -> Result<Self, TryFromYearError> {
        if 1970 <= value && value <= 9999 {
            Ok(Year(value))
        } else {
            Err(TryFromYearError::OutOfRange)
        }
    }
}

impl TryFrom<u32> for Year {
    type Error = TryFromYearError;

    fn try_from(value: u32) -> (r: Result<Self, Self::Error>) {
        if 1970 <= value && value <= 9999 {
            Ok(Self(value as u16))
        } else {
            Err(TryFromYearError::OutOfRange)
        }
    }
}

impl vstd::std_specs::convert::TryFromSpecImpl<u32> for Year {
    open spec fn obeys_try_from_spec() -> bool {
        true
    }

    open spec fn try_from_spec(value: u32) -> Result<Self, TryFromYearError> {
        if 1970 <= value && value <= 9999 {
            Ok(Year(value as u16))
        } else {
            Err(TryFromYearError::OutOfRange)
        }
    }
}

impl TryFrom<u64> for Year {
    type Error = TryFromYearError;

    fn try_from(value: u64) -> (r: Result<Self, Self::Error>) {
        if 1970 <= value && value <= 9999 {
            Ok(Self(value as u16))
        } else {
            Err(TryFromYearError::OutOfRange)
        }
    }
}

impl vstd::std_specs::convert::TryFromSpecImpl<u64> for Year {
    open spec fn obeys_try_from_spec() -> bool {
        true
    }

    open spec fn try_from_spec(value: u64) -> Result<Self, TryFromYearError> {
        if 1970 <= value && value <= 9999 {
            Ok(Year(value as u16))
        } else {
            Err(TryFromYearError::OutOfRange)
        }
    }
}

} // verus!
