//! The wall clock, as the standard library offers it.
//!
//! Nothing is assumed of what the clock reads: it may stand still, jump
//! ahead or fall back between any two readings.

use vstd::prelude::*;
use std::time::{Duration, SystemTime, SystemTimeError, UNIX_EPOCH};

verus! {

/// `std::time::SystemTime`, an instant of the system clock. Opaque here.
#[verifier::external_type_specification]
#[verifier::external_body]
pub struct ExSystemTime(SystemTime);

/// `std::time::SystemTimeError`, the error of [`SystemTime::duration_since`].
/// Opaque here.
#[verifier::external_type_specification]
#[verifier::external_body]
pub struct ExSystemTimeError(SystemTimeError);

/// `SystemTime::now` reads the system clock. Trusted to return; nothing is
/// claimed of the instant it returns.
pub assume_specification[ SystemTime::now ]() -> (t: SystemTime);

/// `SystemTime::duration_since` measures the time from `earlier` to `t`, and
/// fails where `earlier` is the later of the two. Trusted to return; nothing
/// is claimed of which it does.
pub assume_specification[ SystemTime::duration_since ](t: &SystemTime, earlier: SystemTime) -> (r:
    Result<Duration, SystemTimeError>);

/// `Duration::as_millis` gives a duration in whole milliseconds. Trusted to
/// return; nothing is claimed of the number.
pub assume_specification[ Duration::as_millis ](d: &Duration) -> (ms: u128);

/// The reading that a count of whole milliseconds since the Unix epoch
/// stands for: the count itself where it fits in 64 bits, none where it does
/// not.
pub fn reading_of_millis(millis: u128) -> (reading: Option<u64>)
    ensures
        reading == if millis <= u64::MAX {
            Some(millis as u64)
        } else {
            None
        },
{
    if millis <= 0xFFFF_FFFF_FFFF_FFFF {
        Some(millis as u64)
    } else {
        None
    }
}

/// Hands out the constant `std::time::UNIX_EPOCH`, 1970-01-01T00:00:00Z.
/// Nothing is claimed of it.
#[verifier::external_body]
pub(crate) fn unix_epoch() -> (t: SystemTime) {
    UNIX_EPOCH
}

} // verus!
