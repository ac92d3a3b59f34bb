//! The host's day-count date encoding, kept in whole seconds.
//!
//! The host writes a date as a floating-point number of days since
//! 1899-12-30T00:00:00Z. Here such a date is held exactly as the number of
//! whole seconds since that instant (`day_seconds`); dividing by
//! `SECONDS_PER_DAY` gives the host's value.
use vstd::prelude::*;

verus! {

/// Unix time, in seconds, of the reference instant 1899-12-30T00:00:00Z.
pub const REFERENCE_EPOCH_SECONDS: i64 = -2209161600;

/// Seconds in one day of the encoding.
pub const SECONDS_PER_DAY: i64 = 86400;

/// Whole seconds since the reference instant of a Unix time in seconds.
pub open spec fn day_seconds_of(epoch_seconds: int) -> int {
    epoch_seconds - REFERENCE_EPOCH_SECONDS
}

/// Unix time in seconds of a count of seconds since the reference instant.
pub open spec fn epoch_seconds_of(day_seconds: int) -> int {
    day_seconds + REFERENCE_EPOCH_SECONDS
}

/// Whether `x` is a value of `i64`.
pub open spec fn fits_i64(x: int) -> bool {
    i64::MIN <= x <= i64::MAX
}

/// Seconds since the reference instant of the Unix time `epoch_seconds`.
pub fn to_day_seconds(epoch_seconds: i64) -> (r: i128)
    ensures
        r == day_seconds_of(epoch_seconds as int),
{
    epoch_seconds as i128 - REFERENCE_EPOCH_SECONDS as i128
}

/// Unix time in seconds of a date given in seconds since the reference
/// instant; `None` where that time does not fit an `i64`.
pub fn from_day_seconds(day_seconds: i128) -> (r: Option<i64>)
    ensures
        fits_i64(epoch_seconds_of(day_seconds as int)) ==> r == Some(
            epoch_seconds_of(day_seconds as int) as i64,
        ),
        !fits_i64(epoch_seconds_of(day_seconds as int)) ==> r is None,
{
    if day_seconds < i64::MIN as i128 - REFERENCE_EPOCH_SECONDS as i128 || day_seconds
        > i64::MAX as i128 - REFERENCE_EPOCH_SECONDS as i128 {
        None
    } else {
        Some((day_seconds + REFERENCE_EPOCH_SECONDS as i128) as i64)
    }
}

/// Encoding a whole-second Unix time and decoding it again gives the same
/// time back, and the reference instant itself encodes as zero.
pub proof fn lemma_day_seconds_round_trip(epoch_seconds: i64)
    ensures
        fits_i64(epoch_seconds_of(day_seconds_of(epoch_seconds as int))),
        epoch_seconds_of(day_seconds_of(epoch_seconds as int)) == epoch_seconds as int,
        day_seconds_of(REFERENCE_EPOCH_SECONDS as int) == 0,
        day_seconds_of(REFERENCE_EPOCH_SECONDS + SECONDS_PER_DAY) == SECONDS_PER_DAY,
{
}

/// Decoding a date that decodes to a Unix time and encoding that time again
/// gives the same date back.
pub proof fn lemma_epoch_seconds_round_trip(day_seconds: int)
    requires
        fits_i64(epoch_seconds_of(day_seconds)),
    ensures
        day_seconds_of(epoch_seconds_of(day_seconds)) == day_seconds,
{
}

} // verus!
