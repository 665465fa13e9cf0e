//! The ledger clock: times are seconds as a signed 64-bit count, and periods
//! are given in whole days.

use vstd::prelude::*;
use crate::arith::ArithmeticError;

verus! {

/// Seconds in one day.
pub const SECONDS_PER_DAY: i64 = 86_400;

/// Seconds in a year of 365 days.
pub const SECONDS_PER_YEAR: u64 = 31_536_000;

/// The instant `days` whole days after `now`, as a mathematical integer.
pub open spec fn days_after(now: i64, days: u16) -> int {
    now + days * SECONDS_PER_DAY
}

/// Seconds that passed from `earlier` to `later`; zero when `later` is not
/// after `earlier`.
pub open spec fn elapsed(earlier: i64, later: i64) -> int {
    if later > earlier {
        later - earlier
    } else {
        0
    }
}

/// The instant `days` whole days after `now`, or `Overflow` when that
/// instant lies beyond the last second the clock can name.
pub fn deadline_after(now: i64, days: u16) -> (r: Result<i64, ArithmeticError>)
    ensures
        match r {
            Ok(t) => t == days_after(now, days),
            Err(e) => e == ArithmeticError::Overflow && days_after(now, days) > i64::MAX,
        },
{
    let span: i64 = (days as i64) * SECONDS_PER_DAY;
    match now.checked_add(span) {
        Some(t) => Ok(t),
        None => Err(ArithmeticError::Overflow),
    }
}

/// Computes [`elapsed`]. The difference of two clock readings always fits
/// in a `u64`, so this cannot fail.
pub fn elapsed_between(earlier: i64, later: i64) -> (secs: u64)
    ensures
        secs == elapsed(earlier, later),
{
    if later > earlier {
        let wide: i128 = (later as i128) - (earlier as i128);
        wide as u64
    } else {
        0
    }
}

} // verus!
