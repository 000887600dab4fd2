//! Values that a run of received bits encodes: binary-coded decimal numbers and parities.

use crate::msf_helpers::ones;
use radio_datetime_utils::radio_datetime_helpers;
use vstd::prelude::*;

verus! {

/// Number of bits in each channel's buffer: the longest minute and one spare second.
pub const BIT_BUFFER_SIZE: usize = 62;

/// The bits of `buffer` from position `first` to position `last`, both included, in that
/// order: upwards if `first <= last`, downwards otherwise.
pub open spec fn span(buffer: Seq<Option<bool>>, first: int, last: int) -> Seq<Option<bool>> {
    if first <= last {
        Seq::new((last - first + 1) as nat, |k: int| buffer[first + k])
    } else {
        Seq::new((first - last + 1) as nat, |k: int| buffer[first - k])
    }
}

/// Every bit of `window` is known.
pub open spec fn known(window: Seq<Option<bool>>) -> bool {
    forall|i: int| 0 <= i < window.len() ==> (#[trigger] window[i]) is Some
}

/// `weight` if bit `i` of `window` is there and is a `1`, and 0 otherwise.
pub open spec fn weighed(window: Seq<Option<bool>>, i: int, weight: int) -> int {
    if i < window.len() && window[i] == Some(true) {
        weight
    } else {
        0
    }
}

/// The low decimal digit of a window whose first bit is the least significant one.
pub open spec fn units(window: Seq<Option<bool>>) -> int {
    weighed(window, 0, 1) + weighed(window, 1, 2) + weighed(window, 2, 4) + weighed(window, 3, 8)
}

/// The high decimal digit of a window whose first bit is the least significant one.
pub open spec fn tens(window: Seq<Option<bool>>) -> int {
    weighed(window, 4, 1) + weighed(window, 5, 2) + weighed(window, 6, 4) + weighed(window, 7, 8)
}

/// The number that `window` encodes in binary-coded decimal, least significant bit first:
/// nothing if the window has more than two digits, holds an unknown bit, or encodes a digit
/// over 9.
pub open spec fn bcd_value(window: Seq<Option<bool>>) -> Option<u8> {
    if window.len() > 8 || !known(window) || (window.len() >= 4 && units(window) > 9) || units(
        window,
    ) + 10 * tens(window) >= 100 {
        None
    } else {
        Some((units(window) + 10 * tens(window)) as u8)
    }
}

/// The parity of `window` together with its parity bit: `true` if they hold an odd number of
/// `1` bits, and nothing if any of these bits is unknown.
pub open spec fn parity_value(window: Seq<Option<bool>>, parity: Option<bool>) -> Option<bool> {
    if parity is Some && known(window) {
        Some(parity.unwrap() != (ones(window) % 2 == 1))
    } else {
        None
    }
}

/// `radio_datetime_helpers::get_bcd_value` reads the bits from `start`, the least significant,
/// to `stop`, and returns the number that they encode in binary-coded decimal. It indexes the
/// buffer without a check, so both positions must lie in it.
pub assume_specification[ radio_datetime_helpers::get_bcd_value ](
    bit_buffer: &[Option<bool>],
    start: usize,
    stop: usize,
) -> (value: Option<u8>)
    requires
        start < bit_buffer@.len(),
        stop < bit_buffer@.len(),
    ensures
        value == bcd_value(span(bit_buffer@, start as int, stop as int)),
;

/// `radio_datetime_helpers::get_parity` folds the bits between `start` and `stop`, both
/// included and in either order, and `parity` with exclusive or. It slices the buffer
/// without a check, so both positions must lie in it.
pub assume_specification[ radio_datetime_helpers::get_parity ](
    bit_buffer: &[Option<bool>],
    start: usize,
    stop: usize,
    parity: Option<bool>,
) -> (value: Option<bool>)
    requires
        start < bit_buffer@.len(),
        stop < bit_buffer@.len(),
    ensures
        value == parity_value(
            if start <= stop {
                span(bit_buffer@, start as int, stop as int)
            } else {
                span(bit_buffer@, stop as int, start as int)
            },
            parity,
        ),
;

} // verus!
