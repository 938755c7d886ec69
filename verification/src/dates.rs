//! Civil timestamps and the date re-projection algorithm.
//!
//! An archived item carries the instant at which it was originally
//! published.  Re-projection shifts that instant `era * years_per_era`
//! years into the future, keeping month, day and time of day.  The one
//! irregular case is a February 29 source date landing on a non-leap
//! target year: the target becomes February 28, 23:59:59 of that year.
//! A target year beyond the representable range is an error.
//!
//! Conversions between unix timestamps and civil fields are delegated to
//! the `time` crate behind trusted wrappers; everything else here is
//! verified arithmetic on plain values.

use vstd::prelude::*;

verus! {

/// Smallest year the `time` crate can represent.
pub const MIN_YEAR: i32 = -9999;

/// Largest year the `time` crate can represent.
pub const MAX_YEAR: i32 = 9999;

/// Errors of date construction and re-projection.
#[derive(Clone, Copy, PartialEq, Eq, Structural, Debug)]
pub enum DateError {
    /// The re-projected year falls outside the representable range.
    YearOutOfRange,
    /// A unix timestamp has no representable civil form.
    UnrepresentableInstant,
}

/// A civil instant in UTC, held as plain values.
#[derive(Clone, Copy, PartialEq, Eq, Structural, Debug)]
pub struct Timestamp {
    pub year: i32,
    /// 1 to 12.
    pub month: u8,
    /// 1 to the length of the month.
    pub day: u8,
    pub hour: u8,
    pub minute: u8,
    pub second: u8,
}

/// The proleptic Gregorian leap-year rule.
pub open spec fn is_leap_year(year: int) -> bool {
    (year % 4 == 0 && year % 100 != 0) || year % 400 == 0
}

/// Number of days in `month` of `year`.
pub open spec fn days_in_month(year: int, month: int) -> int {
    if month == 2 {
        if is_leap_year(year) {
            29
        } else {
            28
        }
    } else if month == 4 || month == 6 || month == 9 || month == 11 {
        30
    } else {
        31
    }
}

impl Timestamp {
    /// A well-formed timestamp: every field within its calendar range.
    pub open spec fn wf(self) -> bool {
        &&& MIN_YEAR <= self.year <= MAX_YEAR
        &&& 1 <= self.month <= 12
        &&& 1 <= self.day <= days_in_month(self.year as int, self.month as int)
        &&& self.hour < 24
        &&& self.minute < 60
        &&& self.second < 60
    }
}

/// Runtime form of [`is_leap_year`].
pub fn leap_year(year: i32) -> (b: bool)
    ensures
        b == is_leap_year(year as int),
{
    // Shift by a multiple of 400 so the remainders are taken of a
    // non-negative value; leapness has period 400.
    let shifted: i64 = year as i64 + 4000000000;
    let y: u64 = shifted as u64;
    proof {
        vstd::arithmetic::div_mod::lemma_mod_multiples_vanish(1000000000, year as int, 4);
        vstd::arithmetic::div_mod::lemma_mod_multiples_vanish(40000000, year as int, 100);
        vstd::arithmetic::div_mod::lemma_mod_multiples_vanish(10000000, year as int, 400);
        assert(y as int == 4 * 1000000000 + year as int);
        assert(y as int == 100 * 40000000 + year as int);
        assert(y as int == 400 * 10000000 + year as int);
    }
    (y % 4 == 0 && y % 100 != 0) || y % 400 == 0
}

/// What re-projection yields: the source instant pushed
/// `era * years_per_era` years forward, with the leap-day substitution.
pub open spec fn spec_reproject(ts: Timestamp, era: nat, years_per_era: nat) -> Result<
    Timestamp,
    DateError,
> {
    let ny = ts.year + era * years_per_era;
    if ny > MAX_YEAR {
        Err(DateError::YearOutOfRange)
    } else if ts.month == 2 && ts.day == 29 && !is_leap_year(ny) {
        Ok(
            Timestamp {
                year: ny as i32,
                month: 2,
                day: 28,
                hour: 23,
                minute: 59,
                second: 59,
            },
        )
    } else {
        Ok(
            Timestamp {
                year: ny as i32,
                month: ts.month,
                day: ts.day,
                hour: ts.hour,
                minute: ts.minute,
                second: ts.second,
            },
        )
    }
}

/// Re-projects a source instant into era `era`, shifting it
/// `era * years_per_era` years forward.  Month, day and time of day are
/// kept, except that a February 29 source date landing on a non-leap
/// target year becomes February 28, 23:59:59.  Fails exactly when the
/// target year exceeds the representable range.
pub fn reproject(ts: &Timestamp, era: usize, years_per_era: usize) -> (r: Result<
    Timestamp,
    DateError,
>)
    requires
        ts.wf(),
    ensures
        r == spec_reproject(*ts, era as nat, years_per_era as nat),
        r matches Ok(t) ==> t.wf(),
{
    let ny: i32 = match (era as u64).checked_mul(years_per_era as u64) {
        Some(offset) => {
            let wide: i128 = ts.year as i128 + offset as i128;
            if wide > MAX_YEAR as i128 {
                return Err(DateError::YearOutOfRange);
            }
            wide as i32
        },
        None => {
            // The offset alone exceeds the representable year range.
            return Err(DateError::YearOutOfRange);
        },
    };
    if ts.month == 2 && ts.day == 29 && !leap_year(ny) {
        Ok(Timestamp { year: ny, month: 2, day: 28, hour: 23, minute: 59, second: 59 })
    } else {
        Ok(
            Timestamp {
                year: ny,
                month: ts.month,
                day: ts.day,
                hour: ts.hour,
                minute: ts.minute,
                second: ts.second,
            },
        )
    }
}

/// Re-projection is deterministic: it is a function of the source instant,
/// the era and the era length alone, so projecting the same inputs twice
/// yields the same result.
pub proof fn lemma_reproject_deterministic(ts: Timestamp, era: nat, years_per_era: nat)
    ensures
        spec_reproject(ts, era, years_per_era) == spec_reproject(ts, era, years_per_era),
{
}

/// The unix timestamp of -9999-01-01T00:00:00Z, the earliest instant the
/// `time` crate represents.
pub const MIN_UNIX_TIMESTAMP: i64 = -377705116800;

/// The unix timestamp of 9999-12-31T23:59:59Z, the latest whole second the
/// `time` crate represents.
pub const MAX_UNIX_TIMESTAMP: i64 = 253402300799;

/// The civil decomposition (year, month, day, hour, minute, second) in UTC
/// of a unix timestamp, as the `time` crate computes it.
pub uninterp spec fn civil_of(unix: int) -> (int, int, int, int, int, int);

/// The unix timestamp of a civil instant taken as UTC, as the `time` crate
/// computes it.
pub uninterp spec fn unix_of(
    year: int,
    month: int,
    day: int,
    hour: int,
    minute: int,
    second: int,
) -> int;

/// Relies on `time::OffsetDateTime::from_unix_timestamp`, which yields the
/// civil UTC decomposition of a unix timestamp, with every component within
/// its calendar range, and fails exactly for the instants outside the
/// crate's representable span of years, -9999 through 9999.
#[verifier::external_body]
pub fn timestamp_of_unix(unix: i64) -> (r: Option<Timestamp>)
    ensures
        r is Some <==> MIN_UNIX_TIMESTAMP <= unix <= MAX_UNIX_TIMESTAMP,
        r matches Some(t) ==> t.wf() && (
        t.year as int,
        t.month as int,
        t.day as int,
        t.hour as int,
        t.minute as int,
        t.second as int,
        ) == civil_of(unix as int),
{
    match time::OffsetDateTime::from_unix_timestamp(unix) {
        Ok(odt) => Some(
            Timestamp {
                year: odt.year(),
                month: odt.month() as u8,
                day: odt.day(),
                hour: odt.hour(),
                minute: odt.minute(),
                second: odt.second(),
            },
        ),
        Err(_) => None,
    }
}

/// Relies on `time::Date::from_calendar_date`, `time::Time::from_hms`,
/// `time::PrimitiveDateTime::assume_utc` and
/// `time::OffsetDateTime::unix_timestamp`: a well-formed civil instant taken
/// as UTC maps to its unix timestamp.  Well-formedness makes each
/// construction step infallible.
#[verifier::external_body]
pub fn unix_of_timestamp(ts: &Timestamp) -> (r: i64)
    requires
        ts.wf(),
    ensures
        r as int == unix_of(
            ts.year as int,
            ts.month as int,
            ts.day as int,
            ts.hour as int,
            ts.minute as int,
            ts.second as int,
        ),
{
    let month = time::Month::try_from(ts.month).unwrap();
    let date = time::Date::from_calendar_date(ts.year, month, ts.day).unwrap();
    let tod = time::Time::from_hms(ts.hour, ts.minute, ts.second).unwrap();
    time::PrimitiveDateTime::new(date, tod).assume_utc().unix_timestamp()
}

} // verus!
