//! Instants as whole seconds since the Unix epoch, in UTC.
//!
//! Calendar arithmetic is done by the `time` crate, in its ordinary range
//! of years from -9999 to 9999. This module states what it relies on and
//! builds the engine's two questions on it: do two instants fall on the
//! same calendar date, and where does an instant land after a signed number
//! of seconds.

use vstd::prelude::*;

verus! {

/// The first representable instant: the start of the year -9999.
pub const MIN_INSTANT: i64 = -377_705_116_800;

/// The last representable instant: the last second of the year 9999.
pub const MAX_INSTANT: i64 = 253_402_300_799;

/// Seconds in a calendar day.
pub const SECONDS_PER_DAY: i64 = 86_400;

/// The Julian day number of 1970-01-01.
pub const EPOCH_JULIAN_DAY: i32 = 2_440_588;

/// `t` names a second that the calendar can represent.
pub open spec fn representable(t: int) -> bool {
    MIN_INSTANT <= t <= MAX_INSTANT
}

/// The number of the calendar day that holds `t`, counted from 1970-01-01.
pub open spec fn day_of(t: int) -> int {
    t / (SECONDS_PER_DAY as int)
}

/// `a` and `b` are representable and fall on the same calendar date.
pub open spec fn on_same_day(a: int, b: int) -> bool {
    representable(a) && representable(b) && day_of(a) == day_of(b)
}

/// The instant `d` seconds after `t`, where both are representable.
pub open spec fn shifted(t: int, d: int) -> Option<int> {
    if representable(t) && representable(t + d) {
        Some(t + d)
    } else {
        None
    }
}

/// Calls `time::OffsetDateTime::from_unix_timestamp`, then `date` and
/// `Date::to_julian_day` on the result.
///
/// Not proved: that the conversion succeeds exactly on the representable
/// instants, and that the date of such an instant has the Julian day number
/// of the epoch plus the whole days elapsed, rounded down.
#[verifier::external_body]
fn julian_day(t: i64) -> (day: Option<i32>)
    ensures
        day is Some <==> representable(t as int),
        day matches Some(n) ==> n == EPOCH_JULIAN_DAY + day_of(t as int),
{
    match time::OffsetDateTime::from_unix_timestamp(t) {
        Ok(at) => Some(at.date().to_julian_day()),
        Err(_) => None,
    }
}

/// Calls `time::OffsetDateTime::checked_add` on the instant `t` with a
/// duration of `d` whole seconds.
///
/// Not proved: that the sum is returned exactly when `t` and `t + d` are
/// both representable, and that nothing is returned otherwise.
#[verifier::external_body]
pub(crate) fn checked_shift(t: i64, d: i64) -> (r: Option<i64>)
    ensures
        r is Some <==> shifted(t as int, d as int) is Some,
        r matches Some(v) ==> v == t + d,
{
    match time::OffsetDateTime::from_unix_timestamp(t) {
        Ok(at) => match at.checked_add(time::Duration::seconds(d)) {
            Some(moved) => Some(moved.unix_timestamp()),
            None => None,
        },
        Err(_) => None,
    }
}

/// Decides whether two instants fall on the same calendar date.
pub fn same_day(a: i64, b: i64) -> (r: bool)
    ensures
        r == on_same_day(a as int, b as int),
{
    match (julian_day(a), julian_day(b)) {
        (Some(x), Some(y)) => x == y,
        _ => false,
    }
}

} // verus!
