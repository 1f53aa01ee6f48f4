//! Duration types: anchorless counts of whole days and whole seconds.

pub mod days;
pub mod seconds;

pub use self::days::{Days, TryFromDaysError};
pub use self::seconds::Seconds;
