//! The absolute instant: a count of seconds since 1970-01-01T00:00:00Z,
//! bounded to the supported calendar span.

use vstd::prelude::*;

verus! {

use crate::date_time::DateTime;
use crate::duration::days::Days;
use crate::duration::seconds::Seconds;
use crate::engine::{
    spec_date_time_chars, spec_days_before_month, spec_days_from_ce_of_ordinal_date,
    spec_is_leap_year,
};
use vstd::arithmetic::div_mod::{lemma_fundamental_div_mod, lemma_mod_bound};
use vstd::string::StrSliceExecFns;
use vstd::string::StringExecFns;

/// An absolute point in time: whole seconds since 1970-01-01T00:00:00Z,
/// 0 through 253,402,300,799 (9999-12-31T23:59:59Z).
#[derive(Clone, Copy, Debug, Eq, Hash, Ord, PartialEq, PartialOrd, Structural)]
pub struct Instant(pub u64);

/// Failure of reading an instant out of `YYYY-MM-DDTHH:MM:SSZ` text.
#[derive(Clone, Copy, Debug, Eq, PartialEq, Structural)]
pub enum ParseInstantError {
    InvalidFormat,
    OutOfRange,
}

/// Failure of a range-checked numeric conversion into `Instant`.
#[derive(Clone, Copy, Debug, Eq, PartialEq, Structural)]
pub enum TryFromInstantError {
    OutOfRange,
}

impl View for Instant {
    type V = int;

    open spec fn view(&self) -> int {
        self.0 as int
    }
}

/// The canonical `YYYY-MM-DDTHH:MM:SSZ` text of the instant lying `ts`
/// seconds after the Unix epoch.
pub open spec fn spec_instant_chars(ts: int) -> Seq<char> {
    spec_date_time_chars(ts) + seq!['Z']
}

/// The seconds since the Unix epoch at which the date and time `dt`
/// lies: its day count times the seconds of a day, plus its seconds from
/// midnight.
pub open spec fn spec_seconds_of_date_time(dt: DateTime) -> int {
    (spec_days_from_ce_of_ordinal_date(
        dt.date.year@,
        spec_days_before_month(spec_is_leap_year(dt.date.year@), dt.date.month@)
            + dt.date.day_of_month@,
    ) - 719_163) * 86_400 + dt.time.hour@ * 3600 + dt.time.minute@ * 60 + dt.time.second@
}

/// What an instant parsed out of `YYYY-MM-DDTHH:MM:SSZ` text must be.
pub open spec fn spec_parse_instant(s: Seq<char>) -> Result<Instant, ParseInstantError> {
    if s.len() == 0 || s[s.len() - 1] != 'Z' {
        Err(ParseInstantError::InvalidFormat)
    } else {
        match crate::date_time::spec_parse_date_time(s.drop_last()) {
            Err(_) => Err(ParseInstantError::InvalidFormat),
            Ok(dt) => Ok(Instant(spec_seconds_of_date_time(dt) as u64)),
        }
    }
}

impl Instant {
    /// The value lies in the supported span.
    pub open spec fn inv(&self) -> bool {
        self.0 <= 253_402_300_799
    }

    /// An instant from a duration since the Unix epoch; rejects one past
    /// the supported span.
    pub fn from_seconds(seconds: Seconds) -> (r: Result<Self, TryFromInstantError>)
        ensures
            seconds@ <= 253_402_300_799 ==> (r matches Ok(i) && i@ == seconds@ && i.inv()),
            seconds@ > 253_402_300_799 ==> r == Err::<Self, _>(TryFromInstantError::OutOfRange),
    {
        if seconds.0 <= 253_402_300_799 {
            Ok(Self(seconds.0))
        } else {
            Err(TryFromInstantError::OutOfRange)
        }
    }

    /// The last supported instant: 9999-12-31T23:59:59Z.
    pub fn max() -> (r: Self)
        ensures
            r@ == 253_402_300_799 && r.inv(),
    {
        Self(253_402_300_799)
    }

    /// The first supported instant: 1970-01-01T00:00:00Z.
    pub fn min() -> (r: Self)
        ensures
            r@ == 0 && r.inv(),
    {
        Self(0)
    }

    /// The duration from the Unix epoch to this instant.
    pub fn as_seconds(&self) -> (r: Seconds)
        ensures
            r@ == self@,
    {
        Seconds(self.0)
    }

    /// This instant moved `rhs` days later; rejects a result past the
    /// supported span.
    pub fn add_days(self, rhs: Days) -> (r: Result<Self, TryFromInstantError>)
        requires
            self.inv(),
            rhs.inv(),
        ensures
            self@ + rhs@ * 86_400 <= 253_402_300_799 ==> (r matches Ok(i) && i@ == self@ + rhs@
                * 86_400 && i.inv()),
            self@ + rhs@ * 86_400 > 253_402_300_799 ==> r == Err::<Self, _>(
                TryFromInstantError::OutOfRange,
            ),
    {
        let add = rhs.0 as u64 * 86_400;
        if add <= 253_402_300_799 - self.0 {
            Ok(Self(self.0 + add))
        } else {
            Err(TryFromInstantError::OutOfRange)
        }
    }

    /// This instant moved `rhs` seconds later; rejects a result past the
    /// supported span.
    pub fn add_seconds(self, rhs: Seconds) -> (r: Result<Self, TryFromInstantError>)
        requires
            self.inv(),
        ensures
            self@ + rhs@ <= 253_402_300_799 ==> (r matches Ok(i) && i@ == self@ + rhs@
                && i.inv()),
            self@ + rhs@ > 253_402_300_799 ==> r == Err::<Self, _>(TryFromInstantError::OutOfRange),
    {
        if rhs.0 <= 253_402_300_799 - self.0 {
            Ok(Self(self.0 + rhs.0))
        } else {
            Err(TryFromInstantError::OutOfRange)
        }
    }

    /// Reads an instant out of canonical `YYYY-MM-DDTHH:MM:SSZ` text.
    pub fn parse(s: &str) -> (r: Result<Self, ParseInstantError>)
        ensures
            r == spec_parse_instant(s@),
            r matches Ok(i) ==> i.inv(),
    {
        let len = s.unicode_len();
        if len == 0 {
            return Err(ParseInstantError::InvalidFormat);
        }
        if s.get_char(len - 1) != 'Z' {
            return Err(ParseInstantError::InvalidFormat);
        }
        let body = s.substring_char(0, len - 1);
        proof {
            assert(body@ =~= s@.drop_last());
        }
        let date_time = match DateTime::parse(body) {
            Ok(date_time) => date_time,
            Err(_) => {
                return Err(ParseInstantError::InvalidFormat);
            },
        };
        let days = date_time.date().days_from_unix_epoch();
        let seconds_from_midnight = date_time.time().seconds_from_midnight();
        let seconds_from_unix_epoch = days.0 as u64 * 86_400 + seconds_from_midnight.0;
        Ok(Self(seconds_from_unix_epoch))
    }

    /// The canonical `YYYY-MM-DDTHH:MM:SSZ` text form.
    pub fn to_string(&self) -> (r: String)
        requires
            self.inv(),
        ensures
            r@ == spec_instant_chars(self@),
    {
        let formatted = crate::engine::date_time_string_from_seconds_from_unix_epoch(
            self.0 as i64,
        );
        let mut out = match formatted {
            Ok(out) => out,
            Err(_) => {
                proof {
                    assert(false);
                }
                String::new()
            },
        };
        proof {
            reveal_strlit("Z");
        }
        out.append("Z");
        proof {
            assert(out@ =~= spec_instant_chars(self@));
        }
        out
    }
}

/// An instant survives the round trip through its canonical text: the
/// `YYYY-MM-DDTHH:MM:SSZ` form of any supported instant parses back to
/// that instant.
#[verifier::rlimit(60)]
pub proof fn lemma_instant_text_round_trip(i: Instant)
    requires
        i.inv(),
    ensures
        spec_parse_instant(spec_instant_chars(i@)) == Ok::<Instant, ParseInstantError>(i),
{
    let ts = i@;
    let s = spec_instant_chars(ts);
    let body = spec_date_time_chars(ts);
    let sec_ce = ts + 62_135_683_200;
    let d = sec_ce / 86_400;
    let som = sec_ce % 86_400;
    lemma_fundamental_div_mod(sec_ce, 86_400);
    lemma_mod_bound(sec_ce, 86_400);
    assert(719_163 <= d <= 3_652_059);
    let (y, doy) = crate::engine::spec_ordinal_date_from_days(d);
    crate::engine::lemma_ordinal_date_from_days_characterization(d);
    crate::engine::lemma_days_from_ce_closed_form(1969);
    crate::engine::lemma_days_from_ce_closed_form(9999);
    assert(crate::engine::spec_days_from_ce_of_year(y)
        == crate::engine::spec_days_from_ce_of_year(y - 1)
        + crate::engine::spec_days_in_year(y));
    if y <= 1969 {
        crate::engine::lemma_days_from_ce_increases(y, 1969);
        assert(false);
    }
    if y >= 10000 {
        crate::engine::lemma_days_from_ce_increases(9999, y - 1);
        assert(false);
    }
    let leap = crate::engine::spec_is_leap_year(y);
    let (m, dom) = crate::engine::spec_month_day_of_ordinal(leap, doy);
    crate::engine::lemma_days_before_month_total(leap);
    crate::engine::lemma_month_day_of_ordinal_characterization(leap, doy);
    let second = som % 60;
    let rest = som / 60;
    let minute = rest % 60;
    let hour = rest / 60;
    lemma_fundamental_div_mod(som, 60);
    lemma_mod_bound(som, 60);
    lemma_fundamental_div_mod(rest, 60);
    lemma_mod_bound(rest, 60);
    assert(0 <= hour < 24);
    crate::text::lemma_dec4_round_trip(y);
    crate::text::lemma_dec2_round_trip(m);
    crate::text::lemma_dec2_round_trip(dom);
    crate::text::lemma_dec2_round_trip(hour);
    crate::text::lemma_dec2_round_trip(minute);
    crate::text::lemma_dec2_round_trip(second);
    assert(crate::engine::spec_year_chars(y) == crate::text::spec_dec4(y));
    assert(body.len() == 19);
    assert(s.len() == 20);
    assert(s[19] == 'Z');
    assert(s.drop_last() =~= body);
    let date_part = body.subrange(0, 10);
    let time_part = body.subrange(11, 19);
    assert(date_part.subrange(0, 4) =~= crate::text::spec_dec4(y));
    assert(date_part[4] == '-');
    assert(date_part.subrange(5, 7) =~= crate::text::spec_dec2(m));
    assert(date_part[7] == '-');
    assert(date_part.subrange(8, 10) =~= crate::text::spec_dec2(dom));
    assert(body[10] == 'T');
    assert(time_part.subrange(0, 2) =~= crate::text::spec_dec2(hour));
    assert(time_part[2] == ':');
    assert(time_part.subrange(3, 5) =~= crate::text::spec_dec2(minute));
    assert(time_part[5] == ':');
    assert(time_part.subrange(6, 8) =~= crate::text::spec_dec2(second));
    let year_v = crate::date::year::Year(y as u16);
    let month_v = crate::date::month::Month(m as u8);
    let dom_v = crate::date::day_of_month::DayOfMonth(dom as u8);
    let hour_v = crate::time::hour::Hour(hour as u8);
    let minute_v = crate::time::minute::Minute(minute as u8);
    let second_v = crate::time::second::Second(second as u8);
    assert(crate::date::year::spec_parse_year(date_part.subrange(0, 4)) == Ok::<_, crate::date::year::ParseYearError>(year_v));
    assert(crate::date::month::spec_parse_month(date_part.subrange(5, 7)) == Ok::<_, crate::date::month::ParseMonthError>(month_v));
    assert(crate::date::day_of_month::spec_parse_day_of_month(date_part.subrange(8, 10)) == Ok::<_, crate::date::day_of_month::ParseDayOfMonthError>(
        dom_v,
    ));
    let date_v = crate::date::calendar_date::CalendarDate {
        year: year_v,
        month: month_v,
        day_of_month: dom_v,
    };
    assert(crate::date::calendar_date::spec_parse_date(date_part) == Ok::<_, crate::date::calendar_date::ParseDateError>(date_v));
    assert(crate::time::hour::spec_parse_hour(time_part.subrange(0, 2)) == Ok::<_, crate::time::hour::ParseHourError>(hour_v));
    assert(crate::time::minute::spec_parse_minute(time_part.subrange(3, 5)) == Ok::<_, crate::time::minute::ParseMinuteError>(minute_v));
    assert(crate::time::second::spec_parse_second(time_part.subrange(6, 8)) == Ok::<_, crate::time::second::ParseSecondError>(second_v));
    let time_v = crate::time::Time { hour: hour_v, minute: minute_v, second: second_v };
    assert(crate::time::spec_parse_time(time_part) == Ok::<_, crate::time::ParseTimeError>(time_v));
    let dt = DateTime { date: date_v, time: time_v };
    assert(crate::date_time::spec_parse_date_time(body) == Ok::<_, crate::date_time::ParseDateTimeError>(dt));
    assert(spec_seconds_of_date_time(dt) == ts);
    assert(spec_parse_instant(s) == Ok::<_, ParseInstantError>(Instant(ts as u64)));
    assert(Instant(ts as u64) == i);
}

impl std::str::FromStr for Instant {
    type Err = ParseInstantError;

    fn from_str(s: &str) -> Result<Self, Self::Err> {
        Instant::parse(s)
    }
}

impl From<Instant> for i64 {
    fn from(instant: Instant) -> (r: i64) {
        instant.0 as i64
    }
}

impl vstd::std_specs::convert::FromSpecImpl<Instant> for i64 {
    open spec fn obeys_from_spec() -> bool {
        true
    }

    open spec fn from_spec(instant: Instant) -> i64 {
        instant.0 as i64
    }
}

impl From<Instant> for u64 {
    fn from(instant: Instant) -> (r: u64) {
        instant.0
    }
}

impl vstd::std_specs::convert::FromSpecImpl<Instant> for u64 {
    open spec fn obeys_from_spec() -> bool {
        true
    }

    open spec fn from_spec(instant: Instant) -> u64 {
        instant.0
    }
}

impl From<u8> for Instant {
    fn from(value: u8) -> (r: Instant) {
        Self(value as u64)
    }
}

impl vstd::std_specs::convert::FromSpecImpl<u8> for Instant {
    open spec fn obeys_from_spec() -> bool {
        true
    }

    open spec fn from_spec(value: u8) -> Instant {
        Instant(value as u64)
    }
}

impl From<u16> for Instant {
    fn from(value: u16) -> (r: Instant) {
        Self(value as u64)
    }
}

impl vstd::std_specs::convert::FromSpecImpl<u16> for Instant {
    open spec fn obeys_from_spec() -> bool {
        true
    }

    open spec fn from_spec(value: u16) -> Instant {
        Instant(value as u64)
    }
}

impl From<u32> for Instant {
    fn from(value: u32) -> (r: Instant) {
        Self(value as u64)
    }
}

impl vstd::std_specs::convert::FromSpecImpl<u32> for Instant {
    open spec fn obeys_from_spec() -> bool {
        true
    }

    open spec fn from_spec(value: u32) -> Instant {
        Instant(value as u64)
    }
}

impl TryFrom<Instant> for u8 {
    type Error = TryFromInstantError;

    fn try_from(value: Instant) -> (r: Result<Self, Self::Error>) {
        if value.0 <= 255 {
            Ok(value.0 as u8)
        } else {
            Err(TryFromInstantError::OutOfRange)
        }
    }
}

impl vstd::std_specs::convert::TryFromSpecImpl<Instant> for u8 {
    open spec fn obeys_try_from_spec() -> bool {
        true
    }

    open spec fn try_from_spec(value: Instant) -> Result<Self, TryFromInstantError> {
        if value.0 <= 255 {
            Ok(value.0 as u8)
        } else {
            Err(TryFromInstantError::OutOfRange)
        }
    }
}

impl TryFrom<Instant> for u16 {
    type Error = TryFromInstantError;

    fn try_from(value: Instant) -> (r: Result<Self, Self::Error>) {
        if value.0 <= 65535 {
            Ok(value.0 as u16)
        } else {
            Err(TryFromInstantError::OutOfRange)
        }
    }
}

impl vstd::std_specs::convert::TryFromSpecImpl<Instant> for u16 {
    open spec fn obeys_try_from_spec() -> bool {
        true
    }

    open spec fn try_from_spec(value: Instant) -> Result<Self, TryFromInstantError> {
        if value.0 <= 65535 {
            Ok(value.0 as u16)
        } else {
            Err(TryFromInstantError::OutOfRange)
        }
    }
}

impl TryFrom<Instant> for u32 {
    type Error = TryFromInstantError;

    fn try_from(value: Instant) -> (r: Result<Self, Self::Error>) {
        if value.0 <= 4294967295 {
            Ok(value.0 as u32)
        } else {
            Err(TryFromInstantError::OutOfRange)
        }
    }
}

impl vstd::std_specs::convert::TryFromSpecImpl<Instant> for u32 {
    open spec fn obeys_try_from_spec() -> bool {
        true
    }

    open spec fn try_from_spec(value: Instant) -> Result<Self, TryFromInstantError> {
        if value.0 <= 4294967295 {
            Ok(value.0 as u32)
        } else {
            Err(TryFromInstantError::OutOfRange)
        }
    }
}

impl TryFrom<i64> for Instant {
    type Error = TryFromInstantError;

    fn try_from(value: i64) -> (r: Result<Self, Self::Error>) {
        if 0 <= value && value <= 253_402_300_799 {
            Ok(Self(value as u64))
        } else {
            Err(TryFromInstantError::OutOfRange)
        }
    }
}

impl vstd::std_specs::convert::TryFromSpecImpl<i64> for Instant {
    open spec fn obeys_try_from_spec() -> bool {
        true
    }

    open spec fn try_from_spec(value: i64) -> Result<Self, TryFromInstantError> {
        if 0 <= value <= 253_402_300_799 {
            Ok(Instant(value as u64))
        } else {
            Err(TryFromInstantError::OutOfRange)
        }
    }
}

impl TryFrom<u64> for Instant {
    type Error = TryFromInstantError;

    fn try_from(value: u64) -> (r: Result<Self, Self::Error>) {
        if value <= 253_402_300_799 {
            Ok(Self(value))
        } else {
            Err(TryFromInstantError::OutOfRange)
        }
    }
}

impl vstd::std_specs::convert::TryFromSpecImpl<u64> for Instant {
    open spec fn obeys_try_from_spec() -> bool {
        true
    }

    open spec fn try_from_spec(value: u64) -> Result<Self, TryFromInstantError> {
        if value <= 253_402_300_799 {
            Ok(Instant(value))
        } else {
            Err(TryFromInstantError::OutOfRange)
        }
    }
}

} // verus!
