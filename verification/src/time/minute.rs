//! The minute-of-hour scalar: 0 through 59.

use vstd::prelude::*;

verus! {
use crate::text::{parse_digits, push_2_digits, spec_all_digits, spec_dec2, spec_digits_val};

/// A minute of the hour, 0 through 59.
#[derive(Clone, Copy, Debug, Eq, Hash, Ord, PartialOrd, PartialEq, Structural)]
pub struct Minute(pub u8);

/// Failure of reading a minute out of its two-digit text form.
#[derive(Clone, Copy, Debug, Eq, PartialEq, Structural)]
pub enum ParseMinuteError {
    InvalidDigit,
    InvalidLength,
    OutOfRange,
}

/// Failure of a range-checked numeric conversion into `Minute`.
#[derive(Clone, Copy, Debug, Eq, PartialEq, Structural)]
pub enum TryFromMinuteError {
    OutOfRange,
}

impl View for Minute {
    type V = int;

    open spec fn view(&self) -> int {
        self.0 as int
    }
}

/// What a minute parsed out of two-digit text must be.
pub open spec fn spec_parse_minute(s: Seq<char>) -> Result<Minute, ParseMinuteError> {
    if s.len() != 2 {
        Err(ParseMinuteError::InvalidLength)
    } else if !spec_all_digits(s) {
        Err(ParseMinuteError::InvalidDigit)
    } else if spec_digits_val(s) <= 59 {
        Ok(Minute(spec_digits_val(s) as u8))
    } else {
        Err(ParseMinuteError::OutOfRange)
    }
}

impl Minute {
    /// The value lies in the minute range.
    pub open spec fn inv(&self) -> bool {
        self.0 <= 59
    }

    /// The largest minute of the hour: 59.
    pub fn max() -> (r: Self)
        ensures
            r@ == 59 && r.inv(),
    {
        Self(59)
    }

    /// The smallest minute of the hour: 0.
    pub fn min() -> (r: Self)
        ensures
            r@ == 0 && r.inv(),
    {
        Self(0)
    }

    /// Reads a minute out of its canonical two-digit text form.
    pub fn parse(s: &str) -> (r: Result<Self, ParseMinuteError>)
        ensures
            r == spec_parse_minute(s@),
            r matches Ok(v) ==> v.inv(),
    {
        if s.unicode_len() != 2 {
            return Err(ParseMinuteError::InvalidLength);
        }
        match parse_digits(s) {
            None => Err(ParseMinuteError::InvalidDigit),
            Some(v) => {
                proof {
                    crate::text::lemma_digits_val_bound(s@);
                    reveal_with_fuel(crate::text::spec_pow10, 3);
                }
                if v <= 59 {
                    Ok(Self(v as u8))
                } else {
                    Err(ParseMinuteError::OutOfRange)
                }
            },
        }
    }

    /// The canonical two-digit zero-padded text form.
    pub fn to_string(&self) -> (r: String)
        requires
            self.inv(),
        ensures
            r@ == spec_dec2(self@),
    {
        let mut out = String::new();
        push_2_digits(&mut out, self.0 as u64);
        proof {
            assert(out@ =~= spec_dec2(self@));
        }
        out
    }
}

impl std::str::FromStr for Minute {
    type Err = ParseMinuteError;

    fn from_str(s: &str) -> Result<Self, Self::Err> {
        Minute::parse(s)
    }
}

impl From<Minute> for i8 {
    fn from(minute: Minute) -> (r: i8) {
        minute.0 as i8
    }
}

impl vstd::std_specs::convert::FromSpecImpl<Minute> for i8 {
    open spec fn obeys_from_spec() -> bool {
        true
    }

    open spec fn from_spec(minute: Minute) -> i8 {
        minute.0 as i8
    }
}

impl From<Minute> for i16 {
    fn from(minute: Minute) -> (r: i16) {
        minute.0 as i16
    }
}

impl vstd::std_specs::convert::FromSpecImpl<Minute> for i16 {
    open spec fn obeys_from_spec() -> bool {
        true
    }

    open spec fn from_spec(minute: Minute) -> i16 {
        minute.0 as i16
    }
}

impl From<Minute> for i32 {
    fn from(minute: Minute) -> (r: i32) {
        minute.0 as i32
    }
}

impl vstd::std_specs::convert::FromSpecImpl<Minute> for i32 {
    open spec fn obeys_from_spec() -> bool {
        true
    }

    open spec fn from_spec(minute: Minute) -> i32 {
        minute.0 as i32
    }
}

impl From<Minute> for i64 {
    fn from(minute: Minute) -> (r: i64) {
        minute.0 as i64
    }
}

impl vstd::std_specs::convert::FromSpecImpl<Minute> for i64 {
    open spec fn obeys_from_spec() -> bool {
        true
    }

    open spec fn from_spec(minute: Minute) -> i64 {
        minute.0 as i64
    }
}

impl From<Minute> for u8 {
    fn from(minute: Minute) -> (r: u8) {
        minute.0
    }
}

impl vstd::std_specs::convert::FromSpecImpl<Minute> for u8 {
    open spec fn obeys_from_spec() -> bool {
        true
    }

    open spec fn from_spec(minute: Minute) -> u8 {
        minute.0
    }
}

impl From<Minute> for u16 {
    fn from(minute: Minute) -> (r: u16) {
        minute.0 as u16
    }
}

impl vstd::std_specs::convert::FromSpecImpl<Minute> for u16 {
    open spec fn obeys_from_spec() -> bool {
        true
    }

    open spec fn from_spec(minute: Minute) -> u16 {
        minute.0 as u16
    }
}

impl From<Minute> for u32 {
    fn from(minute: Minute) -> (r: u32) {
        minute.0 as u32
    }
}

impl vstd::std_specs::convert::FromSpecImpl<Minute> for u32 {
    open spec fn obeys_from_spec() -> bool {
        true
    }

    open spec fn from_spec(minute: Minute) -> u32 {
        minute.0 as u32
    }
}

impl From<Minute> for u64 {
    fn from(minute: Minute) -> (r: u64) {
        minute.0 as u64
    }
}

impl vstd::std_specs::convert::FromSpecImpl<Minute> for u64 {
    open spec fn obeys_from_spec() -> bool {
        true
    }

    open spec fn from_spec(minute: Minute) -> u64 {
        minute.0 as u64
    }
}

impl TryFrom<i8> for Minute {
    type Error = TryFromMinuteError;

    fn try_from(value: i8) -> (r: Result<Self, Self::Error>) {
        if 0 <= value && value <= 59 {
            Ok(Self(value as u8))
        } else {
            Err(TryFromMinuteError::OutOfRange)
        }
    }
}

impl vstd::std_specs::convert::TryFromSpecImpl<i8> for Minute {
    open spec fn obeys_try_from_spec() -> bool {
        true
    }

    open spec fn try_from_spec(value: i8) -> Result<Self, TryFromMinuteError> {
        if 0 <= value && value <= 59 {
            Ok(Minute(value as u8))
        } else {
            Err(TryFromMinuteError::OutOfRange)
        }
    }
}

impl TryFrom<i16> for Minute {
    type Error = TryFromMinuteError;

    fn try_from(value: i16) -> (r: Result<Self, Self::Error>) {
        if 0 <= value && value <= 59 {
            Ok(Self(value as u8))
        } else {
            Err(TryFromMinuteError::OutOfRange)
        }
    }
}

impl vstd::std_specs::convert::TryFromSpecImpl<i16> for Minute {
    open spec fn obeys_try_from_spec() -> bool {
        true
    }

    open spec fn try_from_spec(value: i16) -> Result<Self, TryFromMinuteError> {
        if 0 <= value && value <= 59 {
            Ok(Minute(value as u8))
        } else {
            Err(TryFromMinuteError::OutOfRange)
        }
    }
}

impl TryFrom<i32> for Minute {
    type Error = TryFromMinuteError;

    fn try_from(value: i32) -> (r: Result<Self, Self::Error>) {
        if 0 <= value && value <= 59 {
            Ok(Self(value as u8))
        } else {
            Err(TryFromMinuteError::OutOfRange)
        }
    }
}

impl vstd::std_specs::convert::TryFromSpecImpl<i32> for Minute {
    open spec fn obeys_try_from_spec() -> bool {
        true
    }

    open spec fn try_from_spec(value: i32) -> Result<Self, TryFromMinuteError> {
        if 0 <= value && value <= 59 {
            Ok(Minute(value as u8))
        } else {
            Err(TryFromMinuteError::OutOfRange)
        }
    }
}

impl TryFrom<i64> for Minute {
    type Error = TryFromMinuteError;

    fn try_from(value: i64) -> (r: Result<Self, Self::Error>) {
        if 0 <= value && value <= 59 {
            Ok(Self(value as u8))
        } else {
            Err(TryFromMinuteError::OutOfRange)
        }
    }
}

impl vstd::std_specs::convert::TryFromSpecImpl<i64> for Minute {
    open spec fn obeys_try_from_spec() -> bool {
        true
    }

    open spec fn try_from_spec(value: i64) -> Result<Self, TryFromMinuteError> {
        if 0 <= value && value <= 59 {
            Ok(Minute(value as u8))
        } else {
            Err(TryFromMinuteError::OutOfRange)
        }
    }
}

impl TryFrom<u8> for Minute {
    type Error = TryFromMinuteError;

    fn try_from(value: u8) -> (r: Result<Self, Self::Error>) {
        if value <= 59 {
            Ok(Self(value))
        } else {
            Err(TryFromMinuteError::OutOfRange)
        }
    }
}

impl vstd::std_specs::convert::TryFromSpecImpl<u8> for Minute {
    open spec fn obeys_try_from_spec() -> bool {
        true
    }

    open spec fn try_from_spec(value: u8) -> Result<Self, TryFromMinuteError> {
        if value <= 59 {
            Ok(Minute(value))
        } else {
            Err(TryFromMinuteError::OutOfRange)
        }
    }
}

impl TryFrom<u16> for Minute {
    type Error = TryFromMinuteError;

    fn try_from(value: u16) -> (r: Result<Self, Self::Error>) {
        if value <= 59 {
            Ok(Self(value as u8))
        } else {
            Err(TryFromMinuteError::OutOfRange)
        }
    }
}

impl vstd::std_specs::convert::TryFromSpecImpl<u16> for Minute {
    open spec fn obeys_try_from_spec() -> bool {
        true
    }

    open spec fn try_from_spec(value: u16) -> Result<Self, TryFromMinuteError> {
        if value <= 59 {
            Ok(Minute(value as u8))
        } else {
            Err(TryFromMinuteError::OutOfRange)
        }
    }
}

impl TryFrom<u32> for Minute {
    type Error = TryFromMinuteError;

    fn try_from(value: u32) -> (r: Result<Self, Self::Error>) {
        if value <= 59 {
            Ok(Self(value as u8))
        } else {
            Err(TryFromMinuteError::OutOfRange)
        }
    }
}

impl vstd::std_specs::convert::TryFromSpecImpl<u32> for Minute {
    open spec fn obeys_try_from_spec() -> bool {
        true
    }

    open spec fn try_from_spec(value: u32) -> Result<Self, TryFromMinuteError> {
        if value <= 59 {
            Ok(Minute(value as u8))
        } else {
            Err(TryFromMinuteError::OutOfRange)
        }
    }
}

impl TryFrom<u64> for Minute {
    type Error = TryFromMinuteError;

    fn try_from(value: u64) -> (r: Result<Self, Self::Error>) {
        if value <= 59 {
            Ok(Self(value as u8))
        } else {
            Err(TryFromMinuteError::OutOfRange)
        }
    }
}

impl vstd::std_specs::convert::TryFromSpecImpl<u64> for Minute {
    open spec fn obeys_try_from_spec() -> bool {
        true
    }

    open spec fn try_from_spec(value: u64) -> Result<Self, TryFromMinuteError> {
        if value <= 59 {
            Ok(Minute(value as u8))
        } else {
            Err(TryFromMinuteError::OutOfRange)
        }
    }
}

} // verus!
