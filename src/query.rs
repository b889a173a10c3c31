//! Time windows of the aggregate read endpoints.

use vstd::prelude::*;

verus! {

/// Seconds in a day.
pub const SECONDS_PER_DAY: i64 = 86400;

/// The start of the UTC day that holds the instant `t` (seconds since the epoch).
pub open spec fn day_start(t: int) -> int {
    t - t % 86400
}

/// The UTC day that holds `start_secs`, as `(first second, first second of the next day)`:
/// the window whose views the payout multipliers count.
pub fn multipliers_window(start_secs: i64) -> (r: (i64, i64))
    requires
        i64::MIN + SECONDS_PER_DAY <= start_secs <= i64::MAX - SECONDS_PER_DAY,
    ensures
        r.0 == day_start(start_secs as int),
        r.1 == r.0 + 86400,
        r.0 <= start_secs < r.1,
{
    let rem = start_secs % SECONDS_PER_DAY;
    let rem = if rem < 0 { rem + SECONDS_PER_DAY } else { rem };
    assert(rem == (start_secs as int) % 86400);
    let start = start_secs - rem;
    (start, start + SECONDS_PER_DAY)
}

/// The finest resolution, in minutes, served for an interval of `secs` seconds: wider
/// windows get coarser buckets.
pub open spec fn min_resolution_minutes(secs: int) -> u32 {
    if secs > 2 * 365 * 86400 {
        10080
    } else if secs > 90 * 86400 {
        1440
    } else if secs > 30 * 86400 {
        60
    } else if secs > 7 * 86400 {
        15
    } else {
        5
    }
}

/// The resolution served for `[start, end)`: the requested one, but never finer than the
/// interval allows; the coarsest allowed where none is requested.
pub fn resolution_minutes(start_secs: i64, end_secs: i64, requested: Option<u32>) -> (r: u32)
    ensures
        r == match requested {
            Some(q) if q > min_resolution_minutes(end_secs - start_secs) => q,
            _ => min_resolution_minutes(end_secs - start_secs),
        },
{
    let secs = end_secs as i128 - start_secs as i128;
    let min: u32 = if secs > 2 * 365 * 86400 {
        10080
    } else if secs > 90 * 86400 {
        1440
    } else if secs > 30 * 86400 {
        60
    } else if secs > 7 * 86400 {
        15
    } else {
        5
    };
    match requested {
        Some(q) if q > min => q,
        _ => min,
    }
}

} // verus!
