//! Unary-coded counts, as used for the DUT1 correction.

use vstd::prelude::*;

verus! {

/// The number of `1` bits in `window`.
pub open spec fn ones(window: Seq<Option<bool>>) -> int
    decreases window.len(),
{
    if window.len() == 0 {
        0
    } else {
        ones(window.drop_last()) + if window.last() == Some(true) {
            1int
        } else {
            0int
        }
    }
}

/// Bit `i` of `window` is a `1` that directly follows a `0`.
pub open spec fn rises_at(window: Seq<Option<bool>>, i: int) -> bool {
    window[i] == Some(true) && window[i - 1] == Some(false)
}

/// Every bit of `window` is known, and no `1` directly follows a `0`.
pub open spec fn is_unary(window: Seq<Option<bool>>) -> bool {
    &&& forall|i: int| 0 <= i < window.len() ==> (#[trigger] window[i]) is Some
    &&& forall|i: int| 0 < i < window.len() ==> !#[trigger] rises_at(window, i)
}

/// The count that `window` encodes in unary: its number of `1` bits, if it is a run of `1`s
/// followed by a run of `0`s, and nothing otherwise.
pub open spec fn unary_value(window: Seq<Option<bool>>) -> Option<int> {
    if is_unary(window) {
        Some(ones(window))
    } else {
        None
    }
}

/// `window` starts with more `1` bits than an `i8` can count.
pub open spec fn overlong(window: Seq<Option<bool>>) -> bool {
    &&& window.len() > i8::MAX
    &&& forall|i: int| 0 <= i <= i8::MAX ==> (#[trigger] window[i]) == Some(true)
}

/// A window cannot hold fewer than no `1` bits, nor more than it has bits.
pub proof fn lemma_ones_in_range(window: Seq<Option<bool>>)
    ensures
        0 <= ones(window) <= window.len(),
    decreases window.len(),
{
    if window.len() > 0 {
        lemma_ones_in_range(window.drop_last());
    }
}

/// Decode the unary value of the bits `start..=stop` of `bit_buffer`.
/// A 0 bit cannot be followed by a 1 bit, and every bit must be known.
///
/// The range must lie in the buffer and may be empty, and it must not start with more than
/// 127 bits that are all 1.
pub fn get_unary_value(bit_buffer: &[Option<bool>], start: usize, stop: usize) -> (value: Option<
    i8,
>)
    requires
        start <= stop + 1,
        stop < bit_buffer@.len(),
        !overlong(bit_buffer@.subrange(start as int, stop + 1)),
    ensures
        match value {
            Some(count) => unary_value(bit_buffer@.subrange(start as int, stop + 1)) == Some(
                count as int,
            ),
            None => unary_value(bit_buffer@.subrange(start as int, stop + 1)) is None,
        },
{
    let ghost window = bit_buffer@.subrange(start as int, stop + 1);
    let mut sum: i8 = 0;
    let mut old_bit: Option<bool> = None;
    let mut i: usize = start;
    proof {
        assert(window.take(0) =~= Seq::empty());
    }
    while i <= stop
        invariant
            start <= i <= stop + 1,
            stop < bit_buffer@.len(),
            window == bit_buffer@.subrange(start as int, stop + 1),
            !overlong(window),
            forall|k: int| 0 <= k < i - start ==> (#[trigger] window[k]) is Some,
            forall|k: int| 0 < k < i - start ==> !#[trigger] rises_at(window, k),
            sum == ones(window.take(i - start)),
            0 <= sum <= i - start,
            sum == i - start ==> forall|k: int|
                0 <= k < i - start ==> (#[trigger] window[k]) == Some(true),
            sum < i - start ==> old_bit == Some(false),
            i > start ==> old_bit == window[i - start - 1],
            i == start ==> old_bit is None,
        decreases stop + 1 - i,
    {
        proof {
            let next = window.take(i - start + 1);
            assert(next.drop_last() =~= window.take(i - start));
            assert(next.last() == window[i - start]);
            assert(window[i - start] == bit_buffer@[i as int]);
        }
        match bit_buffer[i] {
            None => {
                proof {
                    assert(window[i - start] is None);
                }
                return None;
            },
            Some(s_bit) => {
                if s_bit && old_bit == Some(false) {
                    proof {
                        assert(rises_at(window, i - start));
                    }
                    return None;
                }
                proof {
                    if i > start {
                        assert(!rises_at(window, i - start));
                    }
                    if s_bit && sum == i8::MAX {
                        assert(overlong(window));
                    }
                }
                if s_bit {
                    sum += 1;
                }
                old_bit = Some(s_bit);
            },
        }
        i += 1;
    }
    proof {
        assert(window.take(i - start) =~= window);
    }
    Some(sum)
}

} // verus!
