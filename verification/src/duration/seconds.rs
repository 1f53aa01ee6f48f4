//! The second-count duration: any unsigned 64-bit count of seconds.

use vstd::prelude::*;

verus! {

/// A duration in whole seconds.
#[derive(Clone, Copy, Debug, Eq, Hash, Ord, PartialOrd, PartialEq, Structural)]
pub struct Seconds(pub u64);

/// Failure of a range-checked numeric conversion into `Seconds`.
#[derive(Clone, Copy, Debug, Eq, PartialEq, Structural)]
pub enum TryFromSecondsError {
    OutOfRange,
}

impl View for Seconds {
    type V = int;

    open spec fn view(&self) -> int {
        self.0 as int
    }
}

impl Seconds {
}

impl From<Seconds> for u64 {
    fn from(seconds: Seconds) -> (r: u64) {
        seconds.0
    }
}

impl vstd::std_specs::convert::FromSpecImpl<Seconds> for u64 {
    open spec fn obeys_from_spec() -> bool {
        true
    }

    open spec fn from_spec(seconds: Seconds) -> u64 {
        seconds.0
    }
}

impl From<u64> for Seconds {
    fn from(value: u64) -> (r: Seconds) {
        Self(value)
    }
}

impl vstd::std_specs::convert::FromSpecImpl<u64> for Seconds {
    open spec fn obeys_from_spec() -> bool {
        true
    }

    open spec fn from_spec(value: u64) -> Seconds {
        Seconds(value)
    }
}

} // verus!
