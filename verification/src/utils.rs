//! The clock.

use vstd::prelude::*;

verus! {

/// Nanoseconds in a millisecond.
pub const NANOS_PER_MILLI: i128 = 1_000_000;

/// The milliseconds that `nanos` nanoseconds hold, rounded towards zero and
/// kept within the range of `i64`.
pub open spec fn millis_of_nanos(nanos: int) -> int {
    let millis = if nanos >= 0 {
        nanos / 1_000_000
    } else {
        -((-nanos) / 1_000_000)
    };
    if millis > i64::MAX {
        i64::MAX as int
    } else if millis < i64::MIN {
        i64::MIN as int
    } else {
        millis
    }
}

/// Reads the clock with `time::OffsetDateTime::now_utc` and gives the
/// nanoseconds since the Unix epoch. Nothing is known of the reading.
#[verifier::external_body]
pub(crate) fn unix_nanos() -> i128 {
    time::OffsetDateTime::now_utc().unix_timestamp_nanos()
}

/// Turns a clock reading in nanoseconds into a timestamp in milliseconds.
pub fn timestamp_from_nanos(nanos: i128) -> (millis: i64)
    ensures
        millis == millis_of_nanos(nanos as int),
{
    if nanos >= 0 {
        let millis: i128 = nanos / NANOS_PER_MILLI;
        if millis > i64::MAX as i128 {
            i64::MAX
        } else {
            millis as i64
        }
    } else if nanos == i128::MIN {
        i64::MIN
    } else {
        let millis: i128 = (-nanos) / NANOS_PER_MILLI;
        if millis > i64::MAX as i128 {
            i64::MIN
        } else {
            (-millis) as i64
        }
    }
}

/// The current time in milliseconds since the Unix epoch: the clock's
/// reading, turned into a timestamp. Nothing is known of it beforehand.
pub fn get_current_timestamp() -> i64 {
    let nanos = unix_nanos();
    timestamp_from_nanos(nanos)
}

} // verus!
