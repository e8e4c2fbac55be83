//! Acquisition timeouts: from a duration to the milliseconds a backend counts in.

use core::time::Duration;
use vstd::prelude::*;

verus! {

/// The timeout, in milliseconds, of a session that was opened without one.
pub const DEFAULT_TIMEOUT_MS: u32 = 200;

/// The whole milliseconds in a duration, as `Duration::as_millis` counts them.
pub uninterp spec fn duration_millis(timeout: Duration) -> u128;

/// `Duration::as_millis` returns the total number of whole milliseconds that
/// the duration holds. The count depends on the duration alone;
/// [`duration_millis`] is its name in contracts.
pub assume_specification[ Duration::as_millis ](timeout: &Duration) -> (millis: u128)
    ensures
        millis == duration_millis(*timeout),
;

/// The backend timeout that stands for `total_millis` milliseconds: the same
/// number where it fits in 32 bits, and none where it does not.
pub open spec fn timeout_of_millis(total_millis: u128) -> Option<u32> {
    if total_millis <= u32::MAX {
        Some(total_millis as u32)
    } else {
        None
    }
}

/// Narrows a count of milliseconds to the 32 bits a backend takes. A count
/// that does not fit is refused, never truncated or wrapped.
pub fn millis_to_timeout(total_millis: u128) -> (timeout_ms: Option<u32>)
    ensures
        timeout_ms == timeout_of_millis(total_millis),
        timeout_ms matches Some(ms) ==> ms == total_millis,
        timeout_ms is None <==> total_millis > u32::MAX,
{
    if total_millis <= u32::MAX as u128 {
        Some(total_millis as u32)
    } else {
        None
    }
}

/// Converts a timeout to the milliseconds a backend counts in, or to nothing
/// where the duration is too long for 32 bits of milliseconds.
pub fn timeout_millis(timeout: &Duration) -> (timeout_ms: Option<u32>)
    ensures
        timeout_ms == timeout_of_millis(duration_millis(*timeout)),
{
    millis_to_timeout(timeout.as_millis())
}

} // verus!
