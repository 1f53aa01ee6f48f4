//! The second-of-minute scalar: 0 through 59.

use vstd::prelude::*;

verus! {
use crate::text::{parse_digits, push_2_digits, spec_all_digits, spec_dec2, spec_digits_val};

/// A second of the minute, 0 through 59.
#[derive(Clone, Copy, Debug, Eq, Hash, Ord, PartialOrd, PartialEq, Structural)]
pub struct Second(pub u8);

/// Failure of reading a second out of its two-digit text form.
#[derive(Clone, Copy, Debug, Eq, PartialEq, Structural)]
pub enum ParseSecondError {
    InvalidDigit,
    InvalidLength,
    OutOfRange,
}

/// Failure of a range-checked numeric conversion into `Second`.
#[derive(Clone, Copy, Debug, Eq, PartialEq, Structural)]
pub enum TryFromSecondError {
    OutOfRange,
}

impl View for Second {
    type V = int;

    open spec fn view(&self) -> int {
        self.0 as int
    }
}

/// What a second parsed out of two-digit text must be.
pub open spec fn spec_parse_second(s: Seq<char>) -> Result<Second, ParseSecondError> {
    if s.len() != 2 {
        Err(ParseSecondError::InvalidLength)
    } else if !spec_all_digits(s) {
        Err(ParseSecondError::InvalidDigit)
    } else if spec_digits_val(s) <= 59 {
        Ok(Second(spec_digits_val(s) as u8))
    } else {
        Err(ParseSecondError::OutOfRange)
    }
}

impl Second {
    /// The value lies in the second range.
    pub open spec fn inv(&self) -> bool {
        self.0 <= 59
    }

    /// The largest second of the minute: 59.
    pub fn max() -> (r: Self)
        ensures
            r@ == 59 && r.inv(),
    {
        Self(59)
    }

    /// The smallest second of the minute: 0.
    pub fn min() -> (r: Self)
        ensures
            r@ == 0 && r.inv(),
    {
        Self(0)
    }

    /// Reads a second out of its canonical two-digit text form.
    pub fn parse(s: &str) -> (r: Result<Self, ParseSecondError>)
        ensures
            r == spec_parse_second(s@),
            r matches Ok(v) ==> v.inv(),
    {
        if s.unicode_len() != 2 {
            return Err(ParseSecondError::InvalidLength);
        }
        match parse_digits(s) {
            None => Err(ParseSecondError::InvalidDigit),
            Some(v) => {
                proof {
                    crate::text::lemma_digits_val_bound(s@);
                    reveal_with_fuel(crate::text::spec_pow10, 3);
                }
                if v <= 59 {
                    Ok(Self(v as u8))
                } else {
                    Err(ParseSecondError::OutOfRange)
                }
            },
        }
    }

    /// The canonical two-digit zero-padded text form.
    pub fn to_string(&self) -> (r: String)
        requires
            self.inv(),
        ensures
            r@ == spec_dec2(self@),
    {
        let mut out = String::new();
        push_2_digits(&mut out, self.0 as u64);
        proof {
            assert(out@ =~= spec_dec2(self@));
        }
        out
    }
}

impl std::str::FromStr for Second {
    type Err = ParseSecondError;

    fn from_str(s: &str) -> Result<Self, Self::Err> {
        Second::parse(s)
    }
}

impl From<Second> for i8 {
    fn from(second: Second) -> (r: i8) {
        second.0 as i8
    }
}

impl vstd::std_specs::convert::FromSpecImpl<Second> for i8 {
    open spec fn obeys_from_spec() -> bool {
        true
    }

    open spec fn from_spec(second: Second) -> i8 {
        second.0 as i8
    }
}

impl From<Second> for i16 {
    fn from(second: Second) -> (r: i16) {
        second.0 as i16
    }
}

impl vstd::std_specs::convert::FromSpecImpl<Second> for i16 {
    open spec fn obeys_from_spec() -> bool {
        true
    }

    open spec fn from_spec(second: Second) -> i16 {
        second.0 as i16
    }
}

impl From<Second> for i32 {
    fn from(second: Second) -> (r: i32) {
        second.0 as i32
    }
}

impl vstd::std_specs::convert::FromSpecImpl<Second> for i32 {
    open spec fn obeys_from_spec() -> bool {
        true
    }

    open spec fn from_spec(second: Second) -> i32 {
        second.0 as i32
    }
}

impl From<Second> for i64 {
    fn from(second: Second) -> (r: i64) {
        second.0 as i64
    }
}

impl vstd::std_specs::convert::FromSpecImpl<Second> for i64 {
    open spec fn obeys_from_spec() -> bool {
        true
    }

    open spec fn from_spec(second: Second) -> i64 {
        second.0 as i64
    }
}

impl From<Second> for u8 {
    fn from(second: Second) -> (r: u8) {
        second.0
    }
}

impl vstd::std_specs::convert::FromSpecImpl<Second> for u8 {
    open spec fn obeys_from_spec() -> bool {
        true
    }

    open spec fn from_spec(second: Second) -> u8 {
        second.0
    }
}

impl From<Second> for u16 {
    fn from(second: Second) -> (r: u16) {
        second.0 as u16
    }
}

impl vstd::std_specs::convert::FromSpecImpl<Second> for u16 {
    open spec fn obeys_from_spec() -> bool {
        true
    }

    open spec fn from_spec(second: Second) -> u16 {
        second.0 as u16
    }
}

impl From<Second> for u32 {
    fn from(second: Second) -> (r: u32) {
        second.0 as u32
    }
}

impl vstd::std_specs::convert::FromSpecImpl<Second> for u32 {
    open spec fn obeys_from_spec() -> bool {
        true
    }

    open spec fn from_spec(second: Second) -> u32 {
        second.0 as u32
    }
}

impl From<Second> for u64 {
    fn from(second: Second) -> (r: u64) {
        second.0 as u64
    }
}

impl vstd::std_specs::convert::FromSpecImpl<Second> for u64 {
    open spec fn obeys_from_spec() -> bool {
        true
    }

    open spec fn from_spec(second: Second) -> u64 {
        second.0 as u64
    }
}

impl TryFrom<i8> for Second {
    type Error = TryFromSecondError;

    fn try_from(value: i8) -> (r: Result<Self, Self::Error>) {
        if 0 <= value && value <= 59 {
            Ok(Self(value as u8))
        } else {
            Err(TryFromSecondError::OutOfRange)
        }
    }
}

impl vstd::std_specs::convert::TryFromSpecImpl<i8> for Second {
    open spec fn obeys_try_from_spec() -> bool {
        true
    }

    open spec fn try_from_spec(value: i8) -> Result<Self, TryFromSecondError> {
        if 0 <= value && value <= 59 {
            Ok(Second(value as u8))
        } else {
            Err(TryFromSecondError::OutOfRange)
        }
    }
}

impl TryFrom<i16> for Second {
    type Error = TryFromSecondError;

    fn try_from(value: i16) -> (r: Result<Self, Self::Error>) {
        if 0 <= value && value <= 59 {
            Ok(Self(value as u8))
        } else {
            Err(TryFromSecondError::OutOfRange)
        }
    }
}

impl vstd::std_specs::convert::TryFromSpecImpl<i16> for Second {
    open spec fn obeys_try_from_spec() -> bool {
        true
    }

    open spec fn try_from_spec(value: i16) -> Result<Self, TryFromSecondError> {
        if 0 <= value && value <= 59 {
            Ok(Second(value as u8))
        } else {
            Err(TryFromSecondError::OutOfRange)
        }
    }
}

impl TryFrom<i32> for Second {
    type Error = TryFromSecondError;

    fn try_from(value: i32) -> (r: Result<Self, Self::Error>) {
        if 0 <= value && value <= 59 {
            Ok(Self(value as u8))
        } else {
            Err(TryFromSecondError::OutOfRange)
        }
    }
}

impl vstd::std_specs::convert::TryFromSpecImpl<i32> for Second {
    open spec fn obeys_try_from_spec() -> bool {
        true
    }

    open spec fn try_from_spec(value: i32) -> Result<Self, TryFromSecondError> {
        if 0 <= value && value <= 59 {
            Ok(Second(value as u8))
        } else {
            Err(TryFromSecondError::OutOfRange)
        }
    }
}

impl TryFrom<i64> for Second {
    type Error = TryFromSecondError;

    fn try_from(value: i64) -> (r: Result<Self, Self::Error>) {
        if 0 <= value && value <= 59 {
            Ok(Self(value as u8))
        } else {
            Err(TryFromSecondError::OutOfRange)
        }
    }
}

impl vstd::std_specs::convert::TryFromSpecImpl<i64> for Second {
    open spec fn obeys_try_from_spec() -> bool {
        true
    }

    open spec fn try_from_spec(value: i64) -> Result<Self, TryFromSecondError> {
        if 0 <= value && value <= 59 {
            Ok(Second(value as u8))
        } else {
            Err(TryFromSecondError::OutOfRange)
        }
    }
}

impl TryFrom<u8> for Second {
    type Error = TryFromSecondError;

    fn try_from(value: u8) -> (r: Result<Self, Self::Error>) {
        if value <= 59 {
            Ok(Self(value))
        } else {
            Err(TryFromSecondError::OutOfRange)
        }
    }
}

impl vstd::std_specs::convert::TryFromSpecImpl<u8> for Second {
    open spec fn obeys_try_from_spec() -> bool {
        true
    }

    open spec fn try_from_spec(value: u8) -> Result<Self, TryFromSecondError> {
        if value <= 59 {
            Ok(Second(value))
        } else {
            Err(TryFromSecondError::OutOfRange)
        }
    }
}

impl TryFrom<u16> for Second {
    type Error = TryFromSecondError;

    fn try_from(value: u16) -> (r: Result<Self, Self::Error>) {
        if value <= 59 {
            Ok(Self(value as u8))
        } else {
            Err(TryFromSecondError::OutOfRange)
        }
    }
}

impl vstd::std_specs::convert::TryFromSpecImpl<u16> for Second {
    open spec fn obeys_try_from_spec() -> bool {
        true
    }

    open spec fn try_from_spec(value: u16) -> Result<Self, TryFromSecondError> {
        if value <= 59 {
            Ok(Second(value as u8))
        } else {
            Err(TryFromSecondError::OutOfRange)
        }
    }
}

impl TryFrom<u32> for Second {
    type Error = TryFromSecondError;

    fn try_from(value: u32) -> (r: Result<Self, Self::Error>) {
        if value <= 59 {
            Ok(Self(value as u8))
        } else {
            Err(TryFromSecondError::OutOfRange)
        }
    }
}

impl vstd::std_specs::convert::TryFromSpecImpl<u32> for Second {
    open spec fn obeys_try_from_spec() -> bool {
        true
    }

    open spec fn try_from_spec(value: u32) -> Result<Self, TryFromSecondError> {
        if value <= 59 {
            Ok(Second(value as u8))
        } else {
            Err(TryFromSecondError::OutOfRange)
        }
    }
}

impl TryFrom<u64> for Second {
    type Error = TryFromSecondError;

    fn try_from(value: u64) -> (r: Result<Self, Self::Error>) {
        if value <= 59 {
            Ok(Self(value as u8))
        } else {
            Err(TryFromSecondError::OutOfRange)
        }
    }
}

impl vstd::std_specs::convert::TryFromSpecImpl<u64> for Second {
    open spec fn obeys_try_from_spec() -> bool {
        true
    }

    open spec fn try_from_spec(value: u64) -> Result<Self, TryFromSecondError> {
        if value <= 59 {
            Ok(Second(value as u8))
        } else {
            Err(TryFromSecondError::OutOfRange)
        }
    }
}

} // verus!
