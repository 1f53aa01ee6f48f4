//! The day-of-year scalar: 1 through 366.

use vstd::prelude::*;

verus! {
use crate::text::{parse_digits, push_3_digits, spec_all_digits, spec_dec3, spec_digits_val};
use crate::duration::days::Days;

/// A day of some year, 1 through 366; day 366 exists only in leap
/// years.
#[derive(Clone, Copy, Debug, Eq, Hash, Ord, PartialOrd, PartialEq, Structural)]
pub struct DayOfYear(pub u16);

/// Failure of reading a day of the year out of its three-digit text form.
#[derive(Clone, Copy, Debug, Eq, PartialEq, Structural)]
pub enum ParseDayOfYearError {
    InvalidDigit,
    InvalidLength,
    OutOfRange,
}

/// Failure of a range-checked numeric conversion into `DayOfYear`.
#[derive(Clone, Copy, Debug, Eq, PartialEq, Structural)]
pub enum TryFromDayOfYearError {
    OutOfRange,
}

impl View for DayOfYear {
    type V = int;

    open spec fn view(&self) -> int {
        self.0 as int
    }
}

/// What a day of the year parsed out of three-digit text must be.
pub open spec fn spec_parse_day_of_year(s: Seq<char>) -> Result<DayOfYear, ParseDayOfYearError> {
    if s.len() != 3 {
        Err(ParseDayOfYearError::InvalidLength)
    } else if !spec_all_digits(s) {
        Err(ParseDayOfYearError::InvalidDigit)
    } else if 1 <= spec_digits_val(s) <= 366 {
        Ok(DayOfYear(spec_digits_val(s) as u16))
    } else {
        Err(ParseDayOfYearError::OutOfRange)
    }
}

impl DayOfYear {
    /// The value lies in the day of the year range.
    pub open spec fn inv(&self) -> bool {
        1 <= self.0 <= 366
    }

    /// The largest day-of-year any year can have: 366.
    pub fn max() -> (r: Self)
        ensures
            r@ == 366 && r.inv(),
    {
        Self::max_in_leap_year()
    }

    /// The last day of a common year: 365.
    pub fn max_in_common_year() -> (r: Self)
        ensures
            r@ == 365 && r.inv(),
    {
        Self(365)
    }

    /// The last day of a leap year: 366.
    pub fn max_in_leap_year() -> (r: Self)
        ensures
            r@ == 366 && r.inv(),
    {
        Self(366)
    }

    /// The first day of any year: 1.
    pub fn min() -> (r: Self)
        ensures
            r@ == 1 && r.inv(),
    {
        Self(1)
    }

    /// How many days one day of the year spans: one.
    pub fn days(&self) -> (r: Days)
        ensures
            r@ == 1 && r.inv(),
    {
        Days(1)
    }

    /// The day before this one within some year; `None` for day 1.
    pub fn pred(&self) -> (r: Option<Self>)
        requires
            self.inv(),
        ensures
            self@ > 1 ==> (r matches Some(p) && p@ == self@ - 1 && p.inv()),
            self@ == 1 ==> r is None,
    {
        if self.0 > 1 {
            Some(Self(self.0 - 1))
        } else {
            None
        }
    }

    /// The day after this one within some year; `None` for day 366.
    pub fn succ(&self) -> (r: Option<Self>)
        requires
            self.inv(),
        ensures
            self@ < 366 ==> (r matches Some(p) && p@ == self@ + 1 && p.inv()),
            self@ == 366 ==> r is None,
    {
        if self.0 < 366 {
            Some(Self(self.0 + 1))
        } else {
            None
        }
    }

    /// This day moved `rhs` days later within some year; `OutOfRange`
    /// past day 366.
    pub fn add_days(self, rhs: Days) -> (r: Result<Self, TryFromDayOfYearError>)
        requires
            self.inv(),
            rhs.inv(),
        ensures
            self@ + rhs@ <= 366 ==> (r matches Ok(v) && v@ == self@ + rhs@ && v.inv()),
            self@ + rhs@ > 366 ==> r == Err::<Self, _>(TryFromDayOfYearError::OutOfRange),
    {
        let sum = self.0 as u32 + rhs.0;
        if sum <= 366 {
            Ok(Self(sum as u16))
        } else {
            Err(TryFromDayOfYearError::OutOfRange)
        }
    }

    /// Reads a day of the year out of its canonical three-digit text form.
    pub fn parse(s: &str) -> (r: Result<Self, ParseDayOfYearError>)
        ensures
            r == spec_parse_day_of_year(s@),
            r matches Ok(v) ==> v.inv(),
    {
        if s.unicode_len() != 3 {
            return Err(ParseDayOfYearError::InvalidLength);
        }
        match parse_digits(s) {
            None => Err(ParseDayOfYearError::InvalidDigit),
            Some(v) => {
                proof {
                    crate::text::lemma_digits_val_bound(s@);
                    reveal_with_fuel(crate::text::spec_pow10, 4);
                }
                if 1 <= v && v <= 366 {
                    Ok(Self(v as u16))
                } else {
                    Err(ParseDayOfYearError::OutOfRange)
                }
            },
        }
    }

    /// The canonical three-digit zero-padded text form.
    pub fn to_string(&self) -> (r: String)
        requires
            self.inv(),
        ensures
            r@ == spec_dec3(self@),
    {
        let mut out = String::new();
        push_3_digits(&mut out, self.0 as u64);
        proof {
            assert(out@ =~= spec_dec3(self@));
        }
        out
    }
}

impl std::str::FromStr for DayOfYear {
    type Err = ParseDayOfYearError;

    fn from_str(s: &str) -> Result<Self, Self::Err> {
        DayOfYear::parse(s)
    }
}

impl From<DayOfYear> for i16 {
    fn from(day_of_year: DayOfYear) -> (r: i16) {
        day_of_year.0 as i16
    }
}

impl vstd::std_specs::convert::FromSpecImpl<DayOfYear> for i16 {
    open spec fn obeys_from_spec() -> bool {
        true
    }

    open spec fn from_spec(day_of_year: DayOfYear) -> i16 {
        day_of_year.0 as i16
    }
}

impl From<DayOfYear> for i32 {
    fn from(day_of_year: DayOfYear) -> (r: i32) {
        day_of_year.0 as i32
    }
}

impl vstd::std_specs::convert::FromSpecImpl<DayOfYear> for i32 {
    open spec fn obeys_from_spec() -> bool {
        true
    }

    open spec fn from_spec(day_of_year: DayOfYear) -> i32 {
        day_of_year.0 as i32
    }
}

impl From<DayOfYear> for i64 {
    fn from(day_of_year: DayOfYear) -> (r: i64) {
        day_of_year.0 as i64
    }
}

impl vstd::std_specs::convert::FromSpecImpl<DayOfYear> for i64 {
    open spec fn obeys_from_spec() -> bool {
        true
    }

    open spec fn from_spec(day_of_year: DayOfYear) -> i64 {
        day_of_year.0 as i64
    }
}

impl From<DayOfYear> for u16 {
    fn from(day_of_year: DayOfYear) -> (r: u16) {
        day_of_year.0
    }
}

impl vstd::std_specs::convert::FromSpecImpl<DayOfYear> for u16 {
    open spec fn obeys_from_spec() -> bool {
        true
    }

    open spec fn from_spec(day_of_year: DayOfYear) -> u16 {
        day_of_year.0
    }
}

impl From<DayOfYear> for u32 {
    fn from(day_of_year: DayOfYear) -> (r: u32) {
        day_of_year.0 as u32
    }
}

impl vstd::std_specs::convert::FromSpecImpl<DayOfYear> for u32 {
    open spec fn obeys_from_spec() -> bool {
        true
    }

    open spec fn from_spec(day_of_year: DayOfYear) -> u32 {
        day_of_year.0 as u32
    }
}

impl From<DayOfYear> for u64 {
    fn from(day_of_year: DayOfYear) -> (r: u64) {
        day_of_year.0 as u64
    }
}

impl vstd::std_specs::convert::FromSpecImpl<DayOfYear> for u64 {
    open spec fn obeys_from_spec() -> bool {
        true
    }

    open spec fn from_spec(day_of_year: DayOfYear) -> u64 {
        day_of_year.0 as u64
    }
}

impl TryFrom<DayOfYear> for i8 {
    type Error = TryFromDayOfYearError;

    fn try_from(value: DayOfYear) -> (r: Result<Self, Self::Error>) {
        if value.0 <= 127 {
            Ok(value.0 as i8)
        } else {
            Err(TryFromDayOfYearError::OutOfRange)
        }
    }
}

impl vstd::std_specs::convert::TryFromSpecImpl<DayOfYear> for i8 {
    open spec fn obeys_try_from_spec() -> bool {
        true
    }

    open spec fn try_from_spec(value: DayOfYear) -> Result<Self, TryFromDayOfYearError> {
        if value.0 <= 127 {
            Ok(value.0 as i8)
        } else {
            Err(TryFromDayOfYearError::OutOfRange)
        }
    }
}

impl TryFrom<DayOfYear> for u8 {
    type Error = TryFromDayOfYearError;

    fn try_from(value: DayOfYear) -> (r: Result<Self, Self::Error>) {
        if value.0 <= 255 {
            Ok(value.0 as u8)
        } else {
            Err(TryFromDayOfYearError::OutOfRange)
        }
    }
}

impl vstd::std_specs::convert::TryFromSpecImpl<DayOfYear> for u8 {
    open spec fn obeys_try_from_spec() -> bool {
        true
    }

    open spec fn try_from_spec(value: DayOfYear) -> Result<Self, TryFromDayOfYearError> {
        if value.0 <= 255 {
            Ok(value.0 as u8)
        } else {
            Err(TryFromDayOfYearError::OutOfRange)
        }
    }
}

impl TryFrom<i8> for DayOfYear {
    type Error = TryFromDayOfYearError;

    fn try_from(value: i8) -> (r: Result<Self, Self::Error>) {
        if 1 <= value {
            Ok(Self(value as u16))
        } else {
            Err(TryFromDayOfYearError::OutOfRange)
        }
    }
}

impl vstd::std_specs::convert::TryFromSpecImpl<i8> for DayOfYear {
    open spec fn obeys_try_from_spec() -> bool {
        true
    }

    open spec fn try_from_spec(value: i8) -> Result<Self, TryFromDayOfYearError> {
        if 1 <= value {
            Ok(DayOfYear(value as u16))
        } else {
            Err(TryFromDayOfYearError::OutOfRange)
        }
    }
}

impl TryFrom<i16> for DayOfYear {
    type Error = TryFromDayOfYearError;

    fn try_from(value: i16) -> (r: Result<Self, Self::Error>) {
        if 1 <= value && value <= 366 {
            Ok(Self(value as u16))
        } else {
            Err(TryFromDayOfYearError::OutOfRange)
        }
    }
}

impl vstd::std_specs::convert::TryFromSpecImpl<i16> for DayOfYear {
    open spec fn obeys_try_from_spec() -> bool {
        true
    }

    open spec fn try_from_spec(value: i16) -> Result<Self, TryFromDayOfYearError> {
        if 1 <= value && value <= 366 {
            Ok(DayOfYear(value as u16))
        } else {
            Err(TryFromDayOfYearError::OutOfRange)
        }
    }
}

impl TryFrom<i32> for DayOfYear {
    type Error = TryFromDayOfYearError;

    fn try_from(value: i32) -> (r: Result<Self, Self::Error>) {
        if 1 <= value && value <= 366 {
            Ok(Self(value as u16))
        } else {
            Err(TryFromDayOfYearError::OutOfRange)
        }
    }
}

impl vstd::std_specs::convert::TryFromSpecImpl<i32> for DayOfYear {
    open spec fn obeys_try_from_spec() -> bool {
        true
    }

    open spec fn try_from_spec(value: i32) -> Result<Self, TryFromDayOfYearError> {
        if 1 <= value && value <= 366 {
            Ok(DayOfYear(value as u16))
        } else {
            Err(TryFromDayOfYearError::OutOfRange)
        }
    }
}

impl TryFrom<i64> for DayOfYear {
    type Error = TryFromDayOfYearError;

    fn try_from(value: i64) -> (r: Result<Self, Self::Error>) {
        if 1 <= value && value <= 366 {
            Ok(Self(value as u16))
        } else {
            Err(TryFromDayOfYearError::OutOfRange)
        }
    }
}

impl vstd::std_specs::convert::TryFromSpecImpl<i64> for DayOfYear {
    open spec fn obeys_try_from_spec() -> bool {
        true
    }

    open spec fn try_from_spec(value: i64) -> Result<Self, TryFromDayOfYearError> {
        if 1 <= value && value <= 366 {
            Ok(DayOfYear(value as u16))
        } else {
            Err(TryFromDayOfYearError::OutOfRange)
        }
    }
}

impl TryFrom<u8> for DayOfYear {
    type Error = TryFromDayOfYearError;

    fn try_from(value: u8) -> (r: Result<Self, Self::Error>) {
        if 1 <= value {
            Ok(Self(value as u16))
        } else {
            Err(TryFromDayOfYearError::OutOfRange)
        }
    }
}

impl vstd::std_specs::convert::TryFromSpecImpl<u8> for DayOfYear {
    open spec fn obeys_try_from_spec() -> bool {
        true
    }

    open spec fn try_from_spec(value: u8) -> Result<Self, TryFromDayOfYearError> {
        if 1 <= value {
            Ok(DayOfYear(value as u16))
        } else {
            Err(TryFromDayOfYearError::OutOfRange)
        }
    }
}

impl TryFrom<u16> for DayOfYear {
    type Error = TryFromDayOfYearError;

    fn try_from(value: u16) -> (r: Result<Self, Self::Error>) {
        if 1 <= value && value <= 366 {
            Ok(Self(value))
        } else {
            Err(TryFromDayOfYearError::OutOfRange)
        }
    }
}

impl vstd::std_specs::convert::TryFromSpecImpl<u16> for DayOfYear {
    open spec fn obeys_try_from_spec() -> bool {
        true
    }

    open spec fn try_from_spec(value: u16) -> Result<Self, TryFromDayOfYearError> {
        if 1 <= value && value <= 366 {
            Ok(DayOfYear(value))
        } else {
            Err(TryFromDayOfYearError::OutOfRange)
        }
    }
}

impl TryFrom<u32> for DayOfYear {
    type Error = TryFromDayOfYearError;

    fn try_from(value: u32) -> (r: Result<Self, Self::Error>) {
        if 1 <= value && value <= 366 {
            Ok(Self(value as u16))
        } else {
            Err(TryFromDayOfYearError::OutOfRange)
        }
    }
}

impl vstd::std_specs::convert::TryFromSpecImpl<u32> for DayOfYear {
    open spec fn obeys_try_from_spec() -> bool {
        true
    }

    open spec fn try_from_spec(value: u32) -> Result<Self, TryFromDayOfYearError> {
        if 1 <= value && value <= 366 {
            Ok(DayOfYear(value as u16))
        } else {
            Err(TryFromDayOfYearError::OutOfRange)
        }
    }
}

impl TryFrom<u64> for DayOfYear {
    type Error = TryFromDayOfYearError;

    fn try_from(value: u64) -> (r: Result<Self, Self::Error>) {
        if 1 <= value && value <= 366 {
            Ok(Self(value as u16))
        } else {
            Err(TryFromDayOfYearError::OutOfRange)
        }
    }
}

impl vstd::std_specs::convert::TryFromSpecImpl<u64> for DayOfYear {
    open spec fn obeys_try_from_spec() -> bool {
        true
    }

    open spec fn try_from_spec(value: u64) -> Result<Self, TryFromDayOfYearError> {
        if 1 <= value && value <= 366 {
            Ok(DayOfYear(value as u16))
        } else {
            Err(TryFromDayOfYearError::OutOfRange)
        }
    }
}

} // verus!
