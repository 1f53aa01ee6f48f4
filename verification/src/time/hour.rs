//! The hour-of-day scalar: 0 through 23.

use vstd::prelude::*;

verus! {
use crate::text::{parse_digits, push_2_digits, spec_all_digits, spec_dec2, spec_digits_val};

/// An hour of the day, 0 through 23.
#[derive(Clone, Copy, Debug, Eq, Hash, Ord, PartialOrd, PartialEq, Structural)]
pub struct Hour(pub u8);

/// Failure of reading an hour out of its two-digit text form.
#[derive(Clone, Copy, Debug, Eq, PartialEq, Structural)]
pub enum ParseHourError {
    InvalidDigit,
    InvalidLength,
    OutOfRange,
}

/// Failure of a range-checked numeric conversion into `Hour`.
#[derive(Clone, Copy, Debug, Eq, PartialEq, Structural)]
pub enum TryFromHourError {
    OutOfRange,
}

impl View for Hour {
    type V = int;

    open spec fn view(&self) -> int {
        self.0 as int
    }
}

/// What an hour parsed out of two-digit text must be.
pub open spec fn spec_parse_hour(s: Seq<char>) -> Result<Hour, ParseHourError> {
    if s.len() != 2 {
        Err(ParseHourError::InvalidLength)
    } else if !spec_all_digits(s) {
        Err(ParseHourError::InvalidDigit)
    } else if spec_digits_val(s) <= 23 {
        Ok(Hour(spec_digits_val(s) as u8))
    } else {
        Err(ParseHourError::OutOfRange)
    }
}

impl Hour {
    /// The value lies in the hour range.
    pub open spec fn inv(&self) -> bool {
        self.0 <= 23
    }

    /// The largest hour of the day: 23.
    pub fn max() -> (r: Self)
        ensures
            r@ == 23 && r.inv(),
    {
        Self(23)
    }

    /// The smallest hour of the day: 0.
    pub fn min() -> (r: Self)
        ensures
            r@ == 0 && r.inv(),
    {
        Self(0)
    }

    /// Reads an hour out of its canonical two-digit text form.
    pub fn parse(s: &str) -> (r: Result<Self, ParseHourError>)
        ensures
            r == spec_parse_hour(s@),
            r matches Ok(v) ==> v.inv(),
    {
        if s.unicode_len() != 2 {
            return Err(ParseHourError::InvalidLength);
        }
        match parse_digits(s) {
            None => Err(ParseHourError::InvalidDigit),
            Some(v) => {
                proof {
                    crate::text::lemma_digits_val_bound(s@);
                    reveal_with_fuel(crate::text::spec_pow10, 3);
                }
                if v <= 23 {
                    Ok(Self(v as u8))
                } else {
                    Err(ParseHourError::OutOfRange)
                }
            },
        }
    }

    /// The canonical two-digit zero-padded text form.
    pub fn to_string(&self) -> (r: String)
        requires
            self.inv(),
        ensures
            r@ == spec_dec2(self@),
    {
        let mut out = String::new();
        push_2_digits(&mut out, self.0 as u64);
        proof {
            assert(out@ =~= spec_dec2(self@));
        }
        out
    }
}

impl std::str::FromStr for Hour {
    type Err = ParseHourError;

    fn from_str(s: &str) -> Result<Self, Self::Err> {
        Hour::parse(s)
    }
}

impl From<Hour> for i8 {
    fn from(hour: Hour) -> (r: i8) {
        hour.0 as i8
    }
}

impl vstd::std_specs::convert::FromSpecImpl<Hour> for i8 {
    open spec fn obeys_from_spec() -> bool {
        true
    }

    open spec fn from_spec(hour: Hour) -> i8 {
        hour.0 as i8
    }
}

impl From<Hour> for i16 {
    fn from(hour: Hour) -> (r: i16) {
        hour.0 as i16
    }
}

impl vstd::std_specs::convert::FromSpecImpl<Hour> for i16 {
    open spec fn obeys_from_spec() -> bool {
        true
    }

    open spec fn from_spec(hour: Hour) -> i16 {
        hour.0 as i16
    }
}

impl From<Hour> for i32 {
    fn from(hour: Hour) -> (r: i32) {
        hour.0 as i32
    }
}

impl vstd::std_specs::convert::FromSpecImpl<Hour> for i32 {
    open spec fn obeys_from_spec() -> bool {
        true
    }

    open spec fn from_spec(hour: Hour) -> i32 {
        hour.0 as i32
    }
}

impl From<Hour> for i64 {
    fn from(hour: Hour) -> (r: i64) {
        hour.0 as i64
    }
}

impl vstd::std_specs::convert::FromSpecImpl<Hour> for i64 {
    open spec fn obeys_from_spec() -> bool {
        true
    }

    open spec fn from_spec(hour: Hour) -> i64 {
        hour.0 as i64
    }
}

impl From<Hour> for u8 {
    fn from(hour: Hour) -> (r: u8) {
        hour.0
    }
}

impl vstd::std_specs::convert::FromSpecImpl<Hour> for u8 {
    open spec fn obeys_from_spec() -> bool {
        true
    }

    open spec fn from_spec(hour: Hour) -> u8 {
        hour.0
    }
}

impl From<Hour> for u16 {
    fn from(hour: Hour) -> (r: u16) {
        hour.0 as u16
    }
}

impl vstd::std_specs::convert::FromSpecImpl<Hour> for u16 {
    open spec fn obeys_from_spec() -> bool {
        true
    }

    open spec fn from_spec(hour: Hour) -> u16 {
        hour.0 as u16
    }
}

impl From<Hour> for u32 {
    fn from(hour: Hour) -> (r: u32) {
        hour.0 as u32
    }
}

impl vstd::std_specs::convert::FromSpecImpl<Hour> for u32 {
    open spec fn obeys_from_spec() -> bool {
        true
    }

    open spec fn from_spec(hour: Hour) -> u32 {
        hour.0 as u32
    }
}

impl From<Hour> for u64 {
    fn from(hour: Hour) -> (r: u64) {
        hour.0 as u64
    }
}

impl vstd::std_specs::convert::FromSpecImpl<Hour> for u64 {
    open spec fn obeys_from_spec() -> bool {
        true
    }

    open spec fn from_spec(hour: Hour) -> u64 {
        hour.0 as u64
    }
}

impl TryFrom<i8> for Hour {
    type Error = TryFromHourError;

    fn try_from(value: i8) -> (r: Result<Self, Self::Error>) {
        if 0 <= value && value <= 23 {
            Ok(Self(value as u8))
        } else {
            Err(TryFromHourError::OutOfRange)
        }
    }
}

impl vstd::std_specs::convert::TryFromSpecImpl<i8> for Hour {
    open spec fn obeys_try_from_spec() -> bool {
        true
    }

    open spec fn try_from_spec(value: i8) -> Result<Self, TryFromHourError> {
        if 0 <= value && value <= 23 {
            Ok(Hour(value as u8))
        } else {
            Err(TryFromHourError::OutOfRange)
        }
    }
}

impl TryFrom<i16> for Hour {
    type Error = TryFromHourError;

    fn try_from(value: i16) -> (r: Result<Self, Self::Error>) {
        if 0 <= value && value <= 23 {
            Ok(Self(value as u8))
        } else {
            Err(TryFromHourError::OutOfRange)
        }
    }
}

impl vstd::std_specs::convert::TryFromSpecImpl<i16> for Hour {
    open spec fn obeys_try_from_spec() -> bool {
        true
    }

    open spec fn try_from_spec(value: i16) -> Result<Self, TryFromHourError> {
        if 0 <= value && value <= 23 {
            Ok(Hour(value as u8))
        } else {
            Err(TryFromHourError::OutOfRange)
        }
    }
}

impl TryFrom<i32> for Hour {
    type Error = TryFromHourError;

    fn try_from(value: i32) -> (r: Result<Self, Self::Error>) {
        if 0 <= value && value <= 23 {
            Ok(Self(value as u8))
        } else {
            Err(TryFromHourError::OutOfRange)
        }
    }
}

impl vstd::std_specs::convert::TryFromSpecImpl<i32> for Hour {
    open spec fn obeys_try_from_spec() -> bool {
        true
    }

    open spec fn try_from_spec(value: i32) -> Result<Self, TryFromHourError> {
        if 0 <= value && value <= 23 {
            Ok(Hour(value as u8))
        } else {
            Err(TryFromHourError::OutOfRange)
        }
    }
}

impl TryFrom<i64> for Hour {
    type Error = TryFromHourError;

    fn try_from(value: i64) -> (r: Result<Self, Self::Error>) {
        if 0 <= value && value <= 23 {
            Ok(Self(value as u8))
        } else {
            Err(TryFromHourError::OutOfRange)
        }
    }
}

impl vstd::std_specs::convert::TryFromSpecImpl<i64> for Hour {
    open spec fn obeys_try_from_spec() -> bool {
        true
    }

    open spec fn try_from_spec(value: i64) -> Result<Self, TryFromHourError> {
        if 0 <= value && value <= 23 {
            Ok(Hour(value as u8))
        } else {
            Err(TryFromHourError::OutOfRange)
        }
    }
}

impl TryFrom<u8> for Hour {
    type Error = TryFromHourError;

    fn try_from(value: u8) -> (r: Result<Self, Self::Error>) {
        if value <= 23 {
            Ok(Self(value))
        } else {
            Err(TryFromHourError::OutOfRange)
        }
    }
}

impl vstd::std_specs::convert::TryFromSpecImpl<u8> for Hour {
    open spec fn obeys_try_from_spec() -> bool {
        true
    }

    open spec fn try_from_spec(value: u8) -> Result<Self, TryFromHourError> {
        if value <= 23 {
            Ok(Hour(value))
        } else {
            Err(TryFromHourError::OutOfRange)
        }
    }
}

impl TryFrom<u16> for Hour {
    type Error = TryFromHourError;

    fn try_from(value: u16) -> (r: Result<Self, Self::Error>) {
        if value <= 23 {
            Ok(Self(value as u8))
        } else {
            Err(TryFromHourError::OutOfRange)
        }
    }
}

impl vstd::std_specs::convert::TryFromSpecImpl<u16> for Hour {
    open spec fn obeys_try_from_spec() -> bool {
        true
    }

    open spec fn try_from_spec(value: u16) -> Result<Self, TryFromHourError> {
        if value <= 23 {
            Ok(Hour(value as u8))
        } else {
            Err(TryFromHourError::OutOfRange)
        }
    }
}

impl TryFrom<u32> for Hour {
    type Error = TryFromHourError;

    fn try_from(value: u32) -> (r: Result<Self, Self::Error>) {
        if value <= 23 {
            Ok(Self(value as u8))
        } else {
            Err(TryFromHourError::OutOfRange)
        }
    }
}

impl vstd::std_specs::convert::TryFromSpecImpl<u32> for Hour {
    open spec fn obeys_try_from_spec() -> bool {
        true
    }

    open spec fn try_from_spec(value: u32) -> Result<Self, TryFromHourError> {
        if value <= 23 {
            Ok(Hour(value as u8))
        } else {
            Err(TryFromHourError::OutOfRange)
        }
    }
}

impl TryFrom<u64> for Hour {
    type Error = TryFromHourError;

    fn try_from(value: u64) -> (r: Result<Self, Self::Error>) {
        if value <= 23 {
            Ok(Self(value as u8))
        } else {
            Err(TryFromHourError::OutOfRange)
        }
    }
}

impl vstd::std_specs::convert::TryFromSpecImpl<u64> for Hour {
    open spec fn obeys_try_from_spec() -> bool {
        true
    }

    open spec fn try_from_spec(value: u64) -> Result<Self, TryFromHourError> {
        if value <= 23 {
            Ok(Hour(value as u8))
        } else {
            Err(TryFromHourError::OutOfRange)
        }
    }
}

} // verus!
