//! Dates as Julian day numbers, and today's date in UTC.
//!
//! User-facing dates are stored at day granularity. A date is carried as
//! its Julian day number (day 0 is -4713-11-24, day 2 451 545 is
//! 2000-01-01), which is also what the canonical event encoding signs.

use vstd::prelude::*;

verus! {

/// A calendar date, as its Julian day number.
pub type JulianDay = i32;

/// Julian day of -9999-01-01, the earliest date the `time` crate represents.
pub const MIN_JULIAN_DAY: i32 = -1930999;

/// Julian day of 9999-12-31, the latest date the `time` crate represents.
pub const MAX_JULIAN_DAY: i32 = 5373484;

/// Whether a Julian day number names a representable date
/// (`time::Date::from_julian_day` succeeds exactly on these).
pub open spec fn julian_day_in_range(d: int) -> bool {
    MIN_JULIAN_DAY <= d <= MAX_JULIAN_DAY
}

/// `time::Date::from_julian_day`, reduced to its range check.
pub fn julian_day_valid(d: i32) -> (ok: bool)
    ensures
        ok == julian_day_in_range(d as int),
{
    MIN_JULIAN_DAY <= d && d <= MAX_JULIAN_DAY
}

/// Calls `time::OffsetDateTime::now_utc().date()` and returns its Julian
/// day. Claimed: the result is a representable date; which one depends on
/// the clock.
#[verifier::external_body]
pub fn today_utc() -> (d: JulianDay)
    ensures
        julian_day_in_range(d as int),
{
    ::time::OffsetDateTime::now_utc().date().to_julian_day()
}

} // verus!
