//! The day-of-month scalar: 1 through 31.

use vstd::prelude::*;

verus! {
use crate::text::{parse_digits, push_2_digits, spec_all_digits, spec_dec2, spec_digits_val};
use crate::duration::days::Days;

/// A day of some month, 1 through 31; its true upper bound depends
/// on the month and year it is paired with.
#[derive(Clone, Copy, Debug, Eq, Hash, Ord, PartialOrd, PartialEq, Structural)]
pub struct DayOfMonth(pub u8);

/// Failure of reading a day of the month out of its two-digit text form.
#[derive(Clone, Copy, Debug, Eq, PartialEq, Structural)]
pub enum ParseDayOfMonthError {
    InvalidDigit,
    InvalidLength,
    OutOfRange,
}

/// Failure of a range-checked numeric conversion into `DayOfMonth`.
#[derive(Clone, Copy, Debug, Eq, PartialEq, Structural)]
pub enum TryFromDayOfMonthError {
    OutOfRange,
}

impl View for DayOfMonth {
    type V = int;

    open spec fn view(&self) -> int {
        self.0 as int
    }
}

/// What a day of the month parsed out of two-digit text must be.
pub open spec fn spec_parse_day_of_month(s: Seq<char>) -> Result<DayOfMonth, ParseDayOfMonthError> {
    if s.len() != 2 {
        Err(ParseDayOfMonthError::InvalidLength)
    } else if !spec_all_digits(s) {
        Err(ParseDayOfMonthError::InvalidDigit)
    } else if 1 <= spec_digits_val(s) <= 31 {
        Ok(DayOfMonth(spec_digits_val(s) as u8))
    } else {
        Err(ParseDayOfMonthError::OutOfRange)
    }
}

impl DayOfMonth {
    /// The value lies in the day of the month range.
    pub open spec fn inv(&self) -> bool {
        1 <= self.0 <= 31
    }

    /// How many days one day of the month spans: one.
    pub fn days(&self) -> (r: Days)
        ensures
            r@ == 1 && r.inv(),
    {
        Days(1)
    }

    /// The day before this one within some month; `None` for day 1.
    pub fn pred(&self) -> (r: Option<Self>)
        requires
            self.inv(),
        ensures
            self@ > 1 ==> (r matches Some(p) && p@ == self@ - 1 && p.inv()),
            self@ == 1 ==> r is None,
    {
        if self.0 > 1 {
            Some(Self(self.0 - 1))
        } else {
            None
        }
    }

    /// The day after this one within some month; `None` for day 31.
    pub fn succ(&self) -> (r: Option<Self>)
        requires
            self.inv(),
        ensures
            self@ < 31 ==> (r matches Some(p) && p@ == self@ + 1 && p.inv()),
            self@ == 31 ==> r is None,
    {
        if self.0 < 31 {
            Some(Self(self.0 + 1))
        } else {
            None
        }
    }

    /// This day moved `rhs` days later within some month; `OutOfRange`
    /// past day 31.
    pub fn add_days(self, rhs: Days) -> (r: Result<Self, TryFromDayOfMonthError>)
        requires
            self.inv(),
            rhs.inv(),
        ensures
            self@ + rhs@ <= 31 ==> (r matches Ok(v) && v@ == self@ + rhs@ && v.inv()),
            self@ + rhs@ > 31 ==> r == Err::<Self, _>(TryFromDayOfMonthError::OutOfRange),
    {
        let sum = self.0 as u32 + rhs.0;
        if sum <= 31 {
            Ok(Self(sum as u8))
        } else {
            Err(TryFromDayOfMonthError::OutOfRange)
        }
    }

    /// Reads a day of the month out of its canonical two-digit text form.
    pub fn parse(s: &str) -> (r: Result<Self, ParseDayOfMonthError>)
        ensures
            r == spec_parse_day_of_month(s@),
            r matches Ok(v) ==> v.inv(),
    {
        if s.unicode_len() != 2 {
            return Err(ParseDayOfMonthError::InvalidLength);
        }
        match parse_digits(s) {
            None => Err(ParseDayOfMonthError::InvalidDigit),
            Some(v) => {
                proof {
                    crate::text::lemma_digits_val_bound(s@);
                    reveal_with_fuel(crate::text::spec_pow10, 3);
                }
                if 1 <= v && v <= 31 {
                    Ok(Self(v as u8))
                } else {
                    Err(ParseDayOfMonthError::OutOfRange)
                }
            },
        }
    }

    /// The canonical two-digit zero-padded text form.
    pub fn to_string(&self) -> (r: String)
        requires
            self.inv(),
        ensures
            r@ == spec_dec2(self@),
    {
        let mut out = String::new();
        push_2_digits(&mut out, self.0 as u64);
        proof {
            assert(out@ =~= spec_dec2(self@));
        }
        out
    }
}

impl std::str::FromStr for DayOfMonth {
    type Err = ParseDayOfMonthError;

    fn from_str(s: &str) -> Result<Self, Self::Err> {
        DayOfMonth::parse(s)
    }
}

impl From<DayOfMonth> for i8 {
    fn from(day_of_month: DayOfMonth) -> (r: i8) {
        day_of_month.0 as i8
    }
}

impl vstd::std_specs::convert::FromSpecImpl<DayOfMonth> for i8 {
    open spec fn obeys_from_spec() -> bool {
        true
    }

    open spec fn from_spec(day_of_month: DayOfMonth) -> i8 {
        day_of_month.0 as i8
    }
}

impl From<DayOfMonth> for i16 {
    fn from(day_of_month: DayOfMonth) -> (r: i16) {
        day_of_month.0 as i16
    }
}

impl vstd::std_specs::convert::FromSpecImpl<DayOfMonth> for i16 {
    open spec fn obeys_from_spec() -> bool {
        true
    }

    open spec fn from_spec(day_of_month: DayOfMonth) -> i16 {
        day_of_month.0 as i16
    }
}

impl From<DayOfMonth> for i32 {
    fn from(day_of_month: DayOfMonth) -> (r: i32) {
        day_of_month.0 as i32
    }
}

impl vstd::std_specs::convert::FromSpecImpl<DayOfMonth> for i32 {
    open spec fn obeys_from_spec() -> bool {
        true
    }

    open spec fn from_spec(day_of_month: DayOfMonth) -> i32 {
        day_of_month.0 as i32
    }
}

impl From<DayOfMonth> for i64 {
    fn from(day_of_month: DayOfMonth) -> (r: i64) {
        day_of_month.0 as i64
    }
}

impl vstd::std_specs::convert::FromSpecImpl<DayOfMonth> for i64 {
    open spec fn obeys_from_spec() -> bool {
        true
    }

    open spec fn from_spec(day_of_month: DayOfMonth) -> i64 {
        day_of_month.0 as i64
    }
}

impl From<DayOfMonth> for u8 {
    fn from(day_of_month: DayOfMonth) -> (r: u8) {
        day_of_month.0
    }
}

impl vstd::std_specs::convert::FromSpecImpl<DayOfMonth> for u8 {
    open spec fn obeys_from_spec() -> bool {
        true
    }

    open spec fn from_spec(day_of_month: DayOfMonth) -> u8 {
        day_of_month.0
    }
}

impl From<DayOfMonth> for u16 {
    fn from(day_of_month: DayOfMonth) -> (r: u16) {
        day_of_month.0 as u16
    }
}

impl vstd::std_specs::convert::FromSpecImpl<DayOfMonth> for u16 {
    open spec fn obeys_from_spec() -> bool {
        true
    }

    open spec fn from_spec(day_of_month: DayOfMonth) -> u16 {
        day_of_month.0 as u16
    }
}

impl From<DayOfMonth> for u32 {
    fn from(day_of_month: DayOfMonth) -> (r: u32) {
        day_of_month.0 as u32
    }
}

impl vstd::std_specs::convert::FromSpecImpl<DayOfMonth> for u32 {
    open spec fn obeys_from_spec() -> bool {
        true
    }

    open spec fn from_spec(day_of_month: DayOfMonth) -> u32 {
        day_of_month.0 as u32
    }
}

impl From<DayOfMonth> for u64 {
    fn from(day_of_month: DayOfMonth) -> (r: u64) {
        day_of_month.0 as u64
    }
}

impl vstd::std_specs::convert::FromSpecImpl<DayOfMonth> for u64 {
    open spec fn obeys_from_spec() -> bool {
        true
    }

    open spec fn from_spec(day_of_month: DayOfMonth) -> u64 {
        day_of_month.0 as u64
    }
}

impl TryFrom<i8> for DayOfMonth {
    type Error = TryFromDayOfMonthError;

    fn try_from(value: i8) -> (r: Result<Self, Self::Error>) {
        if 1 <= value && value <= 31 {
            Ok(Self(value as u8))
        } else {
            Err(TryFromDayOfMonthError::OutOfRange)
        }
    }
}

impl vstd::std_specs::convert::TryFromSpecImpl<i8> for DayOfMonth {
    open spec fn obeys_try_from_spec() -> bool {
        true
    }

    open spec fn try_from_spec(value: i8) -> Result<Self, TryFromDayOfMonthError> {
        if 1 <= value && value <= 31 {
            Ok(DayOfMonth(value as u8))
        } else {
            Err(TryFromDayOfMonthError::OutOfRange)
        }
    }
}

impl TryFrom<i16> for DayOfMonth {
    type Error = TryFromDayOfMonthError;

    fn try_from(value: i16) -> (r: Result<Self, Self::Error>) {
        if 1 <= value && value <= 31 {
            Ok(Self(value as u8))
        } else {
            Err(TryFromDayOfMonthError::OutOfRange)
        }
    }
}

impl vstd::std_specs::convert::TryFromSpecImpl<i16> for DayOfMonth {
    open spec fn obeys_try_from_spec() -> bool {
        true
    }

    open spec fn try_from_spec(value: i16) -> Result<Self, TryFromDayOfMonthError> {
        if 1 <= value && value <= 31 {
            Ok(DayOfMonth(value as u8))
        } else {
            Err(TryFromDayOfMonthError::OutOfRange)
        }
    }
}

impl TryFrom<i32> for DayOfMonth {
    type Error = TryFromDayOfMonthError;

    fn try_from(value: i32) -> (r: Result<Self, Self::Error>) {
        if 1 <= value && value <= 31 {
            Ok(Self(value as u8))
        } else {
            Err(TryFromDayOfMonthError::OutOfRange)
        }
    }
}

impl vstd::std_specs::convert::TryFromSpecImpl<i32> for DayOfMonth {
    open spec fn obeys_try_from_spec() -> bool {
        true
    }

    open spec fn try_from_spec(value: i32) -> Result<Self, TryFromDayOfMonthError> {
        if 1 <= value && value <= 31 {
            Ok(DayOfMonth(value as u8))
        } else {
            Err(TryFromDayOfMonthError::OutOfRange)
        }
    }
}

impl TryFrom<i64> for DayOfMonth {
    type Error = TryFromDayOfMonthError;

    fn try_from(value: i64) -> (r: Result<Self, Self::Error>) {
        if 1 <= value && value <= 31 {
            Ok(Self(value as u8))
        } else {
            Err(TryFromDayOfMonthError::OutOfRange)
        }
    }
}

impl vstd::std_specs::convert::TryFromSpecImpl<i64> for DayOfMonth {
    open spec fn obeys_try_from_spec() -> bool {
        true
    }

    open spec fn try_from_spec(value: i64) -> Result<Self, TryFromDayOfMonthError> {
        if 1 <= value && value <= 31 {
            Ok(DayOfMonth(value as u8))
        } else {
            Err(TryFromDayOfMonthError::OutOfRange)
        }
    }
}

impl TryFrom<u8> for DayOfMonth {
    type Error = TryFromDayOfMonthError;

    fn try_from(value: u8) -> (r: Result<Self, Self::Error>) {
        if 1 <= value && value <= 31 {
            Ok(Self(value))
        } else {
            Err(TryFromDayOfMonthError::OutOfRange)
        }
    }
}

impl vstd::std_specs::convert::TryFromSpecImpl<u8> for DayOfMonth {
    open spec fn obeys_try_from_spec() -> bool {
        true
    }

    open spec fn try_from_spec(value: u8) -> Result<Self, TryFromDayOfMonthError> {
        if 1 <= value && value <= 31 {
            Ok(DayOfMonth(value))
        } else {
            Err(TryFromDayOfMonthError::OutOfRange)
        }
    }
}

impl TryFrom<u16> for DayOfMonth {
    type Error = TryFromDayOfMonthError;

    fn try_from(value: u16) -> (r: Result<Self, Self::Error>) {
        if 1 <= value && value <= 31 {
            Ok(Self(value as u8))
        } else {
            Err(TryFromDayOfMonthError::OutOfRange)
        }
    }
}

impl vstd::std_specs::convert::TryFromSpecImpl<u16> for DayOfMonth {
    open spec fn obeys_try_from_spec() -> bool {
        true
    }

    open spec fn try_from_spec(value: u16) -> Result<Self, TryFromDayOfMonthError> {
        if 1 <= value && value <= 31 {
            Ok(DayOfMonth(value as u8))
        } else {
            Err(TryFromDayOfMonthError::OutOfRange)
        }
    }
}

impl TryFrom<u32> for DayOfMonth {
    type Error = TryFromDayOfMonthError;

    fn try_from(value: u32) -> (r: Result<Self, Self::Error>) {
        if 1 <= value && value <= 31 {
            Ok(Self(value as u8))
        } else {
            Err(TryFromDayOfMonthError::OutOfRange)
        }
    }
}

impl vstd::std_specs::convert::TryFromSpecImpl<u32> for DayOfMonth {
    open spec fn obeys_try_from_spec() -> bool {
        true
    }

    open spec fn try_from_spec(value: u32) -> Result<Self, TryFromDayOfMonthError> {
        if 1 <= value && value <= 31 {
            Ok(DayOfMonth(value as u8))
        } else {
            Err(TryFromDayOfMonthError::OutOfRange)
        }
    }
}

impl TryFrom<u64> for DayOfMonth {
    type Error = TryFromDayOfMonthError;

    fn try_from(value: u64) -> (r: Result<Self, Self::Error>) {
        if 1 <= value && value <= 31 {
            Ok(Self(value as u8))
        } else {
            Err(TryFromDayOfMonthError::OutOfRange)
        }
    }
}

impl vstd::std_specs::convert::TryFromSpecImpl<u64> for DayOfMonth {
    open spec fn obeys_try_from_spec() -> bool {
        true
    }

    open spec fn try_from_spec(value: u64) -> Result<Self, TryFromDayOfMonthError> {
        if 1 <= value && value <= 31 {
            Ok(DayOfMonth(value as u8))
        } else {
            Err(TryFromDayOfMonthError::OutOfRange)
        }
    }
}

} // verus!
