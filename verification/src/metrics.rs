//! What a finished transfer reports.

use vstd::prelude::*;

verus! {

/// Nanoseconds in one second.
pub const NANOS_PER_SECOND: u128 = 1_000_000_000;

/// Whole bytes per second when `bytes` bytes took `elapsed_nanos`
/// nanoseconds; undefined when no time passed.
pub open spec fn bytes_per_second(bytes: nat, elapsed_nanos: nat) -> Option<nat> {
    if elapsed_nanos == 0 {
        None
    } else {
        Some(bytes * 1_000_000_000 / elapsed_nanos)
    }
}

/// The speed of a transfer in whole bytes per second, rounded down. A
/// transfer that took no measurable time has no speed: the answer is then
/// `None`, never a division by zero.
pub fn throughput(bytes: u64, elapsed_nanos: u128) -> (speed: Option<u128>)
    ensures
        speed is None <==> elapsed_nanos == 0,
        bytes_per_second(bytes as nat, elapsed_nanos as nat) == match speed {
            Some(s) => Some(s as nat),
            None => None::<nat>,
        },
{
    if elapsed_nanos == 0 {
        None
    } else {
        let scaled: u128 = (bytes as u128) * NANOS_PER_SECOND;
        Some(scaled / elapsed_nanos)
    }
}

} // verus!
