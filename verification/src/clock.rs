//! The instant of a write: microseconds since 2000-01-01T00:00:00Z.

use vstd::prelude::*;

verus! {

/// Microseconds from 1970-01-01T00:00:00Z to 2000-01-01T00:00:00Z.
pub const MILLENNIUM: i64 = 946_684_800_000_000;

/// The least instant that can be told from a count of microseconds since
/// 1970-01-01T00:00:00Z.
pub open spec fn earliest() -> int {
    i64::MIN + MILLENNIUM
}

/// An instant given in microseconds since 1970-01-01T00:00:00Z, as an
/// offset from the millennium.
pub open spec fn since_millennium(unix_micros: int) -> int {
    unix_micros - MILLENNIUM
}

/// `chrono::Utc::now()` as `DateTime::timestamp_micros` counts it: whole
/// microseconds since 1970-01-01T00:00:00Z. `now` measures the system time
/// as a duration since that instant, so the count is never negative; where
/// the system clock stands before 1970, chrono panics.
#[verifier::external_body]
fn unix_micros_now() -> (m: i64)
    ensures
        m >= 0,
{
    chrono::Utc::now().timestamp_micros()
}

/// Rebases a count of microseconds since 1970 on the millennium.
pub fn timestamp(unix_micros: i64) -> (ts: i64)
    requires
        unix_micros >= earliest(),
    ensures
        ts == since_millennium(unix_micros as int),
{
    unix_micros - MILLENNIUM
}

/// The current instant. Two readings may differ, and the second need not
/// be the later one.
pub fn now() -> (ts: i64)
    ensures
        ts >= since_millennium(0),
{
    timestamp(unix_micros_now())
}

} // verus!
