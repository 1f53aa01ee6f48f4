//! The month-of-year scalar: 1 through 12.

use vstd::prelude::*;

verus! {

use crate::text::{parse_digits, push_2_digits, spec_all_digits, spec_dec2, spec_digits_val};

/// A month of the year, 1 (January) through 12 (December).
#[derive(Clone, Copy, Debug, Eq, Hash, Ord, PartialEq, PartialOrd, Structural)]
pub struct Month(pub u8);

/// Failure of reading a month out of its two-digit text form.
#[derive(Clone, Copy, Debug, Eq, PartialEq, Structural)]
pub enum ParseMonthError {
    InvalidDigit,
    InvalidLength,
    OutOfRange,
}

/// Failure of a range-checked numeric conversion into `Month`.
#[derive(Clone, Copy, Debug, Eq, PartialEq, Structural)]
pub enum TryFromMonthError {
    OutOfRange,
}

impl View for Month {
    type V = int;

    open spec fn view(&self) -> int {
        self.0 as int
    }
}

/// What a month number parsed out of two-digit text must be.
pub open spec fn spec_parse_month(s: Seq<char>) -> Result<Month, ParseMonthError> {
    if s.len() != 2 {
        Err(ParseMonthError::InvalidLength)
    } else if !spec_all_digits(s) {
        Err(ParseMonthError::InvalidDigit)
    } else if 1 <= spec_digits_val(s) <= 12 {
        Ok(Month(spec_digits_val(s) as u8))
    } else {
        Err(ParseMonthError::OutOfRange)
    }
}

impl Month {
    /// The value lies in the month range.
    pub open spec fn inv(&self) -> bool {
        1 <= self.0 <= 12
    }

    /// January, month 1.
    pub fn january() -> (r: Self)
        ensures
            r@ == 1 && r.inv(),
    {
        Self(1)
    }

    /// February, month 2.
    pub fn february() -> (r: Self)
        ensures
            r@ == 2 && r.inv(),
    {
        Self(2)
    }

    /// March, month 3.
    pub fn march() -> (r: Self)
        ensures
            r@ == 3 && r.inv(),
    {
        Self(3)
    }

    /// April, month 4.
    pub fn april() -> (r: Self)
        ensures
            r@ == 4 && r.inv(),
    {
        Self(4)
    }

    /// May, month 5.
    pub fn may() -> (r: Self)
        ensures
            r@ == 5 && r.inv(),
    {
        Self(5)
    }

    /// June, month 6.
    pub fn june() -> (r: Self)
        ensures
            r@ == 6 && r.inv(),
    {
        Self(6)
    }

    /// July, month 7.
    pub fn july() -> (r: Self)
        ensures
            r@ == 7 && r.inv(),
    {
        Self(7)
    }

    /// August, month 8.
    pub fn august() -> (r: Self)
        ensures
            r@ == 8 && r.inv(),
    {
        Self(8)
    }

    /// September, month 9.
    pub fn september() -> (r: Self)
        ensures
            r@ == 9 && r.inv(),
    {
        Self(9)
    }

    /// October, month 10.
    pub fn october() -> (r: Self)
        ensures
            r@ == 10 && r.inv(),
    {
        Self(10)
    }

    /// November, month 11.
    pub fn november() -> (r: Self)
        ensures
            r@ == 11 && r.inv(),
    {
        Self(11)
    }

    /// December, month 12.
    pub fn december() -> (r: Self)
        ensures
            r@ == 12 && r.inv(),
    {
        Self(12)
    }

    /// The month before this one; `None` for January.
    pub fn pred(&self) -> (r: Option<Self>)
        requires
            self.inv(),
        ensures
            self@ > 1 ==> (r matches Some(p) && p@ == self@ - 1 && p.inv()),
            self@ == 1 ==> r is None,
    {
        if self.0 > 1 {
            Some(Self(self.0 - 1))
        } else {
            None
        }
    }

    /// The month after this one; `None` for December.
    pub fn succ(&self) -> (r: Option<Self>)
        requires
            self.inv(),
        ensures
            self@ < 12 ==> (r matches Some(p) && p@ == self@ + 1 && p.inv()),
            self@ == 12 ==> r is None,
    {
        if self.0 < 12 {
            Some(Self(self.0 + 1))
        } else {
            None
        }
    }

    /// Reads a month out of its canonical two-digit text form.
    pub fn parse(s: &str) -> (r: Result<Self, ParseMonthError>)
        ensures
            r == spec_parse_month(s@),
            r matches Ok(m) ==> m.inv(),
    {
        if s.unicode_len() != 2 {
            return Err(ParseMonthError::InvalidLength);
        }
        match parse_digits(s) {
            None => Err(ParseMonthError::InvalidDigit),
            Some(v) => {
                proof {
                    crate::text::lemma_digits_val_bound(s@);
                    reveal_with_fuel(crate::text::spec_pow10, 3);
                }
                if 1 <= v && v <= 12 {
                    Ok(Self(v as u8))
                } else {
                    Err(ParseMonthError::OutOfRange)
                }
            },
        }
    }

    /// The canonical two-digit zero-padded text form.
    pub fn to_string(&self) -> (r: String)
        requires
            self.inv(),
        ensures
            r@ == spec_dec2(self@),
    {
        let mut out = String::new();
        push_2_digits(&mut out, self.0 as u64);
        proof {
            assert(out@ =~= spec_dec2(self@));
        }
        out
    }
}

impl std::str::FromStr for Month {
    type Err = ParseMonthError;

    fn from_str(s: &str) -> Result<Self, Self::Err> {
        Month::parse(s)
    }
}

impl From<Month> for i8 {
    fn from(month: Month) -> (r: i8) {
        month.0 as i8
    }
}

impl vstd::std_specs::convert::FromSpecImpl<Month> for i8 {
    open spec fn obeys_from_spec() -> bool {
        true
    }

    open spec fn from_spec(month: Month) -> i8 {
        month.0 as i8
    }
}

impl From<Month> for i16 {
    fn from(month: Month) -> (r: i16) {
        month.0 as i16
    }
}

impl vstd::std_specs::convert::FromSpecImpl<Month> for i16 {
    open spec fn obeys_from_spec() -> bool {
        true
    }

    open spec fn from_spec(month: Month) -> i16 {
        month.0 as i16
    }
}

impl From<Month> for i32 {
    fn from(month: Month) -> (r: i32) {
        month.0 as i32
    }
}

impl vstd::std_specs::convert::FromSpecImpl<Month> for i32 {
    open spec fn obeys_from_spec() -> bool {
        true
    }

    open spec fn from_spec(month: Month) -> i32 {
        month.0 as i32
    }
}

impl From<Month> for i64 {
    fn from(month: Month) -> (r: i64) {
        month.0 as i64
    }
}

impl vstd::std_specs::convert::FromSpecImpl<Month> for i64 {
    open spec fn obeys_from_spec() -> bool {
        true
    }

    open spec fn from_spec(month: Month) -> i64 {
        month.0 as i64
    }
}

impl From<Month> for u8 {
    fn from(month: Month) -> (r: u8) {
        month.0
    }
}

impl vstd::std_specs::convert::FromSpecImpl<Month> for u8 {
    open spec fn obeys_from_spec() -> bool {
        true
    }

    open spec fn from_spec(month: Month) -> u8 {
        month.0
    }
}

impl From<Month> for u16 {
    fn from(month: Month) -> (r: u16) {
        month.0 as u16
    }
}

impl vstd::std_specs::convert::FromSpecImpl<Month> for u16 {
    open spec fn obeys_from_spec() -> bool {
        true
    }

    open spec fn from_spec(month: Month) -> u16 {
        month.0 as u16
    }
}

impl From<Month> for u32 {
    fn from(month: Month) -> (r: u32) {
        month.0 as u32
    }
}

impl vstd::std_specs::convert::FromSpecImpl<Month> for u32 {
    open spec fn obeys_from_spec() -> bool {
        true
    }

    open spec fn from_spec(month: Month) -> u32 {
        month.0 as u32
    }
}

impl From<Month> for u64 {
    fn from(month: Month) -> (r: u64) {
        month.0 as u64
    }
}

impl vstd::std_specs::convert::FromSpecImpl<Month> for u64 {
    open spec fn obeys_from_spec() -> bool {
        true
    }

    open spec fn from_spec(month: Month) -> u64 {
        month.0 as u64
    }
}

impl TryFrom<i8> for Month {
    type Error = TryFromMonthError;

    fn try_from(value: i8) -> (r: Result<Self, Self::Error>) {
        if 1 <= value && value <= 12 {
            Ok(Self(value as u8))
        } else {
            Err(TryFromMonthError::OutOfRange)
        }
    }
}

impl vstd::std_specs::convert::TryFromSpecImpl<i8> for Month {
    open spec fn obeys_try_from_spec() -> bool {
        true
    }

    open spec fn try_from_spec(value: i8) -> Result<Self, TryFromMonthError> {
        if 1 <= value <= 12 {
            Ok(Month(value as u8))
        } else {
            Err(TryFromMonthError::OutOfRange)
        }
    }
}

impl TryFrom<i16> for Month {
    type Error = TryFromMonthError;

    fn try_from(value: i16) -> (r: Result<Self, Self::Error>) {
        if 1 <= value && value <= 12 {
            Ok(Self(value as u8))
        } else {
            Err(TryFromMonthError::OutOfRange)
        }
    }
}

impl vstd::std_specs::convert::TryFromSpecImpl<i16> for Month {
    open spec fn obeys_try_from_spec() -> bool {
        true
    }

    open spec fn try_from_spec(value: i16) -> Result<Self, TryFromMonthError> {
        if 1 <= value <= 12 {
            Ok(Month(value as u8))
        } else {
            Err(TryFromMonthError::OutOfRange)
        }
    }
}

impl TryFrom<i32> for Month {
    type Error = TryFromMonthError;

    fn try_from(value: i32) -> (r: Result<Self, Self::Error>) {
        if 1 <= value && value <= 12 {
            Ok(Self(value as u8))
        } else {
            Err(TryFromMonthError::OutOfRange)
        }
    }
}

impl vstd::std_specs::convert::TryFromSpecImpl<i32> for Month {
    open spec fn obeys_try_from_spec() -> bool {
        true
    }

    open spec fn try_from_spec(value: i32) -> Result<Self, TryFromMonthError> {
        if 1 <= value <= 12 {
            Ok(Month(value as u8))
        } else {
            Err(TryFromMonthError::OutOfRange)
        }
    }
}

impl TryFrom<i64> for Month {
    type Error = TryFromMonthError;

    fn try_from(value: i64) -> (r: Result<Self, Self::Error>) {
        if 1 <= value && value <= 12 {
            Ok(Self(value as u8))
        } else {
            Err(TryFromMonthError::OutOfRange)
        }
    }
}

impl vstd::std_specs::convert::TryFromSpecImpl<i64> for Month {
    open spec fn obeys_try_from_spec() -> bool {
        true
    }

    open spec fn try_from_spec(value: i64) -> Result<Self, TryFromMonthError> {
        if 1 <= value <= 12 {
            Ok(Month(value as u8))
        } else {
            Err(TryFromMonthError::OutOfRange)
        }
    }
}

impl TryFrom<u8> for Month {
    type Error = TryFromMonthError;

    fn try_from(value: u8) -> (r: Result<Self, Self::Error>) {
        if 1 <= value && value <= 12 {
            Ok(Self(value))
        } else {
            Err(TryFromMonthError::OutOfRange)
        }
    }
}

impl vstd::std_specs::convert::TryFromSpecImpl<u8> for Month {
    open spec fn obeys_try_from_spec() -> bool {
        true
    }

    open spec fn try_from_spec(value: u8) -> Result<Self, TryFromMonthError> {
        if 1 <= value <= 12 {
            Ok(Month(value))
        } else {
            Err(TryFromMonthError::OutOfRange)
        }
    }
}

impl TryFrom<u16> for Month {
    type Error = TryFromMonthError;

    fn try_from(value: u16) -> (r: Result<Self, Self::Error>) {
        if 1 <= value && value <= 12 {
            Ok(Self(value as u8))
        } else {
            Err(TryFromMonthError::OutOfRange)
        }
    }
}

impl vstd::std_specs::convert::TryFromSpecImpl<u16> for Month {
    open spec fn obeys_try_from_spec() -> bool {
        true
    }

    open spec fn try_from_spec(value: u16) -> Result<Self, TryFromMonthError> {
        if 1 <= value <= 12 {
            Ok(Month(value as u8))
        } else {
            Err(TryFromMonthError::OutOfRange)
        }
    }
}

impl TryFrom<u32> for Month {
    type Error = TryFromMonthError;

    fn try_from(value: u32) -> (r: Result<Self, Self::Error>) {
        if 1 <= value && value <= 12 {
            Ok(Self(value as u8))
        } else {
            Err(TryFromMonthError::OutOfRange)
        }
    }
}

impl vstd::std_specs::convert::TryFromSpecImpl<u32> for Month {
    open spec fn obeys_try_from_spec() -> bool {
        true
    }

    open spec fn try_from_spec(value: u32) -> Result<Self, TryFromMonthError> {
        if 1 <= value <= 12 {
            Ok(Month(value as u8))
        } else {
            Err(TryFromMonthError::OutOfRange)
        }
    }
}

impl TryFrom<u64> for Month {
    type Error = TryFromMonthError;

    fn try_from(value: u64) -> (r: Result<Self, Self::Error>) {
        if 1 <= value && value <= 12 {
            Ok(Self(value as u8))
        } else {
            Err(TryFromMonthError::OutOfRange)
        }
    }
}

impl vstd::std_specs::convert::TryFromSpecImpl<u64> for Month {
    open spec fn obeys_try_from_spec() -> bool {
        true
    }

    open spec fn try_from_spec(value: u64) -> Result<Self, TryFromMonthError> {
        if 1 <= value <= 12 {
            Ok(Month(value as u8))
        } else {
            Err(TryFromMonthError::OutOfRange)
        }
    }
}

} // verus!
