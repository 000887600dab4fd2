//! Time stamps, the second counter and the lengths that tell the parts of a second apart.

use crate::bit_fields::BIT_BUFFER_SIZE;
use radio_datetime_utils::radio_datetime_helpers;
use vstd::prelude::*;

verus! {

/// Default upper limit for spike detection in microseconds.
pub const SPIKE_LIMIT: u32 = 30_000;

/// Maximum time in microseconds for a bit to be considered 0 (0/x cases).
pub const ACTIVE_0_LIMIT: u32 = 150_000;

/// Maximum time in microseconds for bit A to be considered 1.
pub const ACTIVE_A_LIMIT: u32 = 250_000;

/// Maximum time in microseconds for bit A and B to be considered 1.
pub const ACTIVE_AB_LIMIT: u32 = 350_000;

/// Maximum time in microseconds for a minute marker to be detected.
pub const MINUTE_LIMIT: u32 = 550_000;

/// Signal is considered lost after this many microseconds.
pub const PASSIVE_RUNAWAY: u32 = 1_500_000;

/// Length of a second in microseconds.
pub const SECOND: u32 = 1_000_000;

/// The microseconds from time stamp `t0` to time stamp `t1`, which count modulo 2^32.
pub open spec fn elapsed(t0: u32, t1: u32) -> u32 {
    if t1 >= t0 {
        (t1 - t0) as u32
    } else {
        (t1 + 0x1_0000_0000 - t0) as u32
    }
}

/// The second counter wraps: a new minute has arrived, or the next second would be the length
/// of the minute or past the end of the bit buffer.
pub open spec fn second_wraps(second: u8, new_minute: bool, minute_length: u8) -> bool {
    new_minute || second + 1 == minute_length || second + 1 == BIT_BUFFER_SIZE
}

/// The second that follows `second`.
pub open spec fn next_second(second: u8, new_minute: bool, minute_length: u8) -> u8 {
    if second_wraps(second, new_minute, minute_length) {
        0
    } else {
        (second + 1) as u8
    }
}

/// `radio_datetime_helpers::time_diff` subtracts two time stamps that wrap around at 2^32.
pub assume_specification[ radio_datetime_helpers::time_diff ](t0: u32, t1: u32) -> (diff: u32)
    ensures
        diff == elapsed(t0, t1),
;

/// `radio_datetime_helpers::increase_second` sets the second counter to 0 on a new minute.
/// Else it adds 1, unchecked, and sets the counter to 0 if it has reached the length of the
/// minute or the size of the bit buffer. It returns whether the counter went on as it
/// should: on a new minute, or without wrapping.
pub assume_specification[ radio_datetime_helpers::increase_second ](
    second: &mut u8,
    new_minute: bool,
    minute_length: u8,
) -> (regular: bool)
    requires
        new_minute || *old(second) < u8::MAX,
    ensures
        *final(second) == next_second(*old(second), new_minute, minute_length),
        regular == (new_minute || !second_wraps(*old(second), new_minute, minute_length)),
;

} // verus!
