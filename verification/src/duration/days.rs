//! The day-count duration: 0 through 2,932,896 whole days, the span
//! of the whole supported calendar range.

use vstd::prelude::*;

verus! {
use crate::duration::seconds::Seconds;

/// A duration in whole days, 0 through 2,932,896 (the count of days
/// from 1970-01-01 to 9999-12-31).
#[derive(Clone, Copy, Debug, Eq, Hash, Ord, PartialOrd, PartialEq, Structural)]
pub struct Days(pub u32);

/// Failure of a range-checked numeric conversion into `Days`.
#[derive(Clone, Copy, Debug, Eq, PartialEq, Structural)]
pub enum TryFromDaysError {
    OutOfRange,
}

impl View for Days {
    type V = int;

    open spec fn view(&self) -> int {
        self.0 as int
    }
}

impl Days {
    /// The value lies in the day count range.
    pub open spec fn inv(&self) -> bool {
        self.0 <= 2932896
    }
}

impl From<Days> for i32 {
    fn from(days: Days) -> (r: i32) {
        days.0 as i32
    }
}

impl vstd::std_specs::convert::FromSpecImpl<Days> for i32 {
    open spec fn obeys_from_spec() -> bool {
        true
    }

    open spec fn from_spec(days: Days) -> i32 {
        days.0 as i32
    }
}

impl From<Days> for i64 {
    fn from(days: Days) -> (r: i64) {
        days.0 as i64
    }
}

impl vstd::std_specs::convert::FromSpecImpl<Days> for i64 {
    open spec fn obeys_from_spec() -> bool {
        true
    }

    open spec fn from_spec(days: Days) -> i64 {
        days.0 as i64
    }
}

impl From<Days> for u32 {
    fn from(days: Days) -> (r: u32) {
        days.0
    }
}

impl vstd::std_specs::convert::FromSpecImpl<Days> for u32 {
    open spec fn obeys_from_spec() -> bool {
        true
    }

    open spec fn from_spec(days: Days) -> u32 {
        days.0
    }
}

impl From<Days> for u64 {
    fn from(days: Days) -> (r: u64) {
        days.0 as u64
    }
}

impl vstd::std_specs::convert::FromSpecImpl<Days> for u64 {
    open spec fn obeys_from_spec() -> bool {
        true
    }

    open spec fn from_spec(days: Days) -> u64 {
        days.0 as u64
    }
}

impl TryFrom<Days> for i8 {
    type Error = TryFromDaysError;

    fn try_from(value: Days) -> (r: Result<Self, Self::Error>) {
        if value.0 <= 127 {
            Ok(value.0 as i8)
        } else {
            Err(TryFromDaysError::OutOfRange)
        }
    }
}

impl vstd::std_specs::convert::TryFromSpecImpl<Days> for i8 {
    open spec fn obeys_try_from_spec() -> bool {
        true
    }

    open spec fn try_from_spec(value: Days) -> Result<Self, TryFromDaysError> {
        if value.0 <= 127 {
            Ok(value.0 as i8)
        } else {
            Err(TryFromDaysError::OutOfRange)
        }
    }
}

impl TryFrom<Days> for i16 {
    type Error = TryFromDaysError;

    fn try_from(value: Days) -> (r: Result<Self, Self::Error>) {
        if value.0 <= 32767 {
            Ok(value.0 as i16)
        } else {
            Err(TryFromDaysError::OutOfRange)
        }
    }
}

impl vstd::std_specs::convert::TryFromSpecImpl<Days> for i16 {
    open spec fn obeys_try_from_spec() -> bool {
        true
    }

    open spec fn try_from_spec(value: Days) -> Result<Self, TryFromDaysError> {
        if value.0 <= 32767 {
            Ok(value.0 as i16)
        } else {
            Err(TryFromDaysError::OutOfRange)
        }
    }
}

impl TryFrom<Days> for u8 {
    type Error = TryFromDaysError;

    fn try_from(value: Days) -> (r: Result<Self, Self::Error>) {
        if value.0 <= 255 {
            Ok(value.0 as u8)
        } else {
            Err(TryFromDaysError::OutOfRange)
        }
    }
}

impl vstd::std_specs::convert::TryFromSpecImpl<Days> for u8 {
    open spec fn obeys_try_from_spec() -> bool {
        true
    }

    open spec fn try_from_spec(value: Days) -> Result<Self, TryFromDaysError> {
        if value.0 <= 255 {
            Ok(value.0 as u8)
        } else {
            Err(TryFromDaysError::OutOfRange)
        }
    }
}

impl TryFrom<Days> for u16 {
    type Error = TryFromDaysError;

    fn try_from(value: Days) -> (r: Result<Self, Self::Error>) {
        if value.0 <= 65535 {
            Ok(value.0 as u16)
        } else {
            Err(TryFromDaysError::OutOfRange)
        }
    }
}

impl vstd::std_specs::convert::TryFromSpecImpl<Days> for u16 {
    open spec fn obeys_try_from_spec() -> bool {
        true
    }

    open spec fn try_from_spec(value: Days) -> Result<Self, TryFromDaysError> {
        if value.0 <= 65535 {
            Ok(value.0 as u16)
        } else {
            Err(TryFromDaysError::OutOfRange)
        }
    }
}

impl From<u8> for Days {
    fn from(value: u8) -> (r: Days) {
        Self(value as u32)
    }
}

impl vstd::std_specs::convert::FromSpecImpl<u8> for Days {
    open spec fn obeys_from_spec() -> bool {
        true
    }

    open spec fn from_spec(value: u8) -> Days {
        Days(value as u32)
    }
}

impl From<u16> for Days {
    fn from(value: u16) -> (r: Days) {
        Self(value as u32)
    }
}

impl vstd::std_specs::convert::FromSpecImpl<u16> for Days {
    open spec fn obeys_from_spec() -> bool {
        true
    }

    open spec fn from_spec(value: u16) -> Days {
        Days(value as u32)
    }
}

impl TryFrom<i8> for Days {
    type Error = TryFromDaysError;

    fn try_from(value: i8) -> (r: Result<Self, Self::Error>) {
        if 0 <= value {
            Ok(Self(value as u32))
        } else {
            Err(TryFromDaysError::OutOfRange)
        }
    }
}

impl vstd::std_specs::convert::TryFromSpecImpl<i8> for Days {
    open spec fn obeys_try_from_spec() -> bool {
        true
    }

    open spec fn try_from_spec(value: i8) -> Result<Self, TryFromDaysError> {
        if 0 <= value {
            Ok(Days(value as u32))
        } else {
            Err(TryFromDaysError::OutOfRange)
        }
    }
}

impl TryFrom<i16> for Days {
    type Error = TryFromDaysError;

    fn try_from(value: i16) -> (r: Result<Self, Self::Error>) {
        if 0 <= value {
            Ok(Self(value as u32))
        } else {
            Err(TryFromDaysError::OutOfRange)
        }
    }
}

impl vstd::std_specs::convert::TryFromSpecImpl<i16> for Days {
    open spec fn obeys_try_from_spec() -> bool {
        true
    }

    open spec fn try_from_spec(value: i16) -> Result<Self, TryFromDaysError> {
        if 0 <= value {
            Ok(Days(value as u32))
        } else {
            Err(TryFromDaysError::OutOfRange)
        }
    }
}

impl TryFrom<i32> for Days {
    type Error = TryFromDaysError;

    fn try_from(value: i32) -> (r: Result<Self, Self::Error>) {
        if 0 <= value && value <= 2932896 {
            Ok(Self(value as u32))
        } else {
            Err(TryFromDaysError::OutOfRange)
        }
    }
}

impl vstd::std_specs::convert::TryFromSpecImpl<i32> for Days {
    open spec fn obeys_try_from_spec() -> bool {
        true
    }

    open spec fn try_from_spec(value: i32) -> Result<Self, TryFromDaysError> {
        if 0 <= value && value <= 2932896 {
            Ok(Days(value as u32))
        } else {
            Err(TryFromDaysError::OutOfRange)
        }
    }
}

impl TryFrom<i64> for Days {
    type Error = TryFromDaysError;

    fn try_from(value: i64) -> (r: Result<Self, Self::Error>) {
        if 0 <= value && value <= 2932896 {
            Ok(Self(value as u32))
        } else {
            Err(TryFromDaysError::OutOfRange)
        }
    }
}

impl vstd::std_specs::convert::TryFromSpecImpl<i64> for Days {
    open spec fn obeys_try_from_spec() -> bool {
        true
    }

    open spec fn try_from_spec(value: i64) -> Result<Self, TryFromDaysError> {
        if 0 <= value && value <= 2932896 {
            Ok(Days(value as u32))
        } else {
            Err(TryFromDaysError::OutOfRange)
        }
    }
}

impl TryFrom<u32> for Days {
    type Error = TryFromDaysError;

    fn try_from(value: u32) -> (r: Result<Self, Self::Error>) {
        if value <= 2932896 {
            Ok(Self(value))
        } else {
            Err(TryFromDaysError::OutOfRange)
        }
    }
}

impl vstd::std_specs::convert::TryFromSpecImpl<u32> for Days {
    open spec fn obeys_try_from_spec() -> bool {
        true
    }

    open spec fn try_from_spec(value: u32) -> Result<Self, TryFromDaysError> {
        if value <= 2932896 {
            Ok(Days(value))
        } else {
            Err(TryFromDaysError::OutOfRange)
        }
    }
}

impl TryFrom<u64> for Days {
    type Error = TryFromDaysError;

    fn try_from(value: u64) -> (r: Result<Self, Self::Error>) {
        if value <= 2932896 {
            Ok(Self(value as u32))
        } else {
            Err(TryFromDaysError::OutOfRange)
        }
    }
}

impl vstd::std_specs::convert::TryFromSpecImpl<u64> for Days {
    open spec fn obeys_try_from_spec() -> bool {
        true
    }

    open spec fn try_from_spec(value: u64) -> Result<Self, TryFromDaysError> {
        if value <= 2932896 {
            Ok(Days(value as u32))
        } else {
            Err(TryFromDaysError::OutOfRange)
        }
    }
}

impl From<Days> for Seconds {
    fn from(value: Days) -> (r: Seconds) {
        Seconds(value.0 as u64 * 86_400)
    }
}

impl vstd::std_specs::convert::FromSpecImpl<Days> for Seconds {
    open spec fn obeys_from_spec() -> bool {
        true
    }

    open spec fn from_spec(value: Days) -> Seconds {
        Seconds((value.0 * 86_400) as u64)
    }
}

} // verus!
