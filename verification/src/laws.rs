//! What holds of the decoder on every input.

use crate::bit_fields::{bcd_value, known, parity_value, span, BIT_BUFFER_SIZE};
use crate::calendar::CalendarView;
use crate::decoder::DecoderView;
use crate::frame::{
    frame_of, frame_offset, length_of_minute, marker_ends_at, starts_marker, Frame,
};
use crate::msf_helpers::unary_value;
use crate::timing::elapsed;
use vstd::prelude::*;

verus! {

/// The length of the minute and the presence of the end-of-minute marker depend on nothing
/// but the A bits and the second counter: asked again while these stand, the decoder gives
/// the same answers.
pub proof fn lemma_minute_length_is_stable(before: DecoderView, after: DecoderView)
    requires
        before.bits_a == after.bits_a,
        before.second == after.second,
    ensures
        before.minute_length() == after.minute_length(),
        before.marker_present(false) == after.marker_present(false),
        before.marker_present(true) == after.marker_present(true),
{
}

/// A minute has 59, 60 or 61 seconds, whatever the bits are.
pub proof fn lemma_minute_length_in_range(state: DecoderView)
    requires
        state.wf(),
    ensures
        59 <= state.minute_length() <= 61,
{
}

/// The second counter never leaves the bit buffers, even if the end of the minute is
/// missed: it goes back to 0 at the length of the minute and at the end of the buffers.
pub proof fn lemma_second_stays_in_buffer(state: DecoderView, is_low_edge: bool, t: u32)
    requires
        state.wf(),
    ensures
        state.second_increased().wf(),
        state.second_increased().second <= state.second + 1,
        state.after_edge(is_low_edge, t).wf(),
{
}

/// Once the first minute is over it stays over, whatever the decoder is asked to do.
pub proof fn lemma_first_minute_stays_over(
    state: DecoderView,
    is_low_edge: bool,
    t: u32,
    strict_checks: bool,
)
    requires
        !state.first_minute,
    ensures
        !state.after_edge(is_low_edge, t).first_minute,
        !state.second_increased().first_minute,
        !state.minute_added().first_minute,
        !state.decoded(strict_checks).first_minute,
{
}

/// The end-of-minute marker is found where it stands, and an unknown bit in its place
/// hides it: with the pattern `01111110` in the A bits 52 to 59 the marker ends at second
/// 59, and with any of these bits unknown it does not.
pub proof fn lemma_marker_at_second_59(bits_a: Seq<Option<bool>>, position: int)
    requires
        bits_a.len() == BIT_BUFFER_SIZE,
        52 <= position <= 59,
    ensures
        bits_a[52] == Some(false) && bits_a[53] == Some(true) && bits_a[54] == Some(true)
            && bits_a[55] == Some(true) && bits_a[56] == Some(true) && bits_a[57] == Some(true)
            && bits_a[58] == Some(true) && bits_a[59] == Some(false) ==> marker_ends_at(
            bits_a,
            59,
            false,
        ),
        bits_a[position] is None ==> !marker_ends_at(bits_a, 59, false),
{
    let window = span(bits_a, 52, 59);
    if bits_a[position] is None {
        assert(window[position - 52] is None);
    }
}

/// A window with an unknown bit encodes no number, has no parity and is no unary count.
pub proof fn lemma_unknown_bit_voids_window(
    window: Seq<Option<bool>>,
    parity: Option<bool>,
    i: int,
)
    requires
        0 <= i < window.len(),
        window[i] is None,
    ensures
        bcd_value(window) is None,
        parity_value(window, parity) is None,
        unary_value(window) is None,
        !starts_marker(window),
{
    assert(!known(window));
}

/// An unknown parity bit leaves the parity unknown.
pub proof fn lemma_unknown_parity_bit_voids_parity(window: Seq<Option<bool>>)
    ensures
        parity_value(window, None) is None,
{
}

/// An unknown A bit makes every field that it belongs to unknown, and the parity over that
/// field too, whichever way a leap second has shifted the frame. With the parity unknown
/// the field is trusted under neither kind of check.
pub proof fn lemma_unknown_bit_voids_field(
    bits_a: Seq<Option<bool>>,
    bits_b: Seq<Option<bool>>,
    second: int,
    offset: int,
    position: int,
    strict: bool,
)
    requires
        -1 <= offset <= 1,
        bits_a.len() == BIT_BUFFER_SIZE,
        17 <= position - offset <= 51,
        bits_a[position] is None,
    ensures
        ({
            let frame = frame_of(bits_a, bits_b, second, offset);
            let nominal = position - offset;
            &&& 17 <= nominal <= 24 ==> frame.year is None && frame.parity_1 is None
                && !frame.year_ok(strict)
            &&& 25 <= nominal <= 29 ==> frame.month is None && frame.parity_2 is None
                && !frame.month_ok(strict)
            &&& 30 <= nominal <= 35 ==> frame.day is None && frame.parity_2 is None
                && !frame.day_ok(strict)
            &&& 36 <= nominal <= 38 ==> frame.weekday is None && frame.parity_3 is None
                && !frame.weekday_ok(strict)
            &&& 39 <= nominal <= 44 ==> frame.hour is None && frame.parity_4 is None
                && !frame.time_ok(strict)
            &&& 45 <= nominal <= 51 ==> frame.minute is None && frame.parity_4 is None
                && !frame.time_ok(strict)
            &&& !frame.strict_ok()
        }),
{
    let nominal = position - offset;
    if nominal <= 24 {
        lemma_unknown_in_span(bits_a, 24 + offset, 17 + offset, position);
        lemma_unknown_in_span(bits_a, 17 + offset, 24 + offset, position);
    } else if nominal <= 29 {
        lemma_unknown_in_span(bits_a, 29 + offset, 25 + offset, position);
        lemma_unknown_in_span(bits_a, 25 + offset, 35 + offset, position);
    } else if nominal <= 35 {
        lemma_unknown_in_span(bits_a, 35 + offset, 30 + offset, position);
        lemma_unknown_in_span(bits_a, 25 + offset, 35 + offset, position);
    } else if nominal <= 38 {
        lemma_unknown_in_span(bits_a, 38 + offset, 36 + offset, position);
        lemma_unknown_in_span(bits_a, 36 + offset, 38 + offset, position);
    } else if nominal <= 44 {
        lemma_unknown_in_span(bits_a, 44 + offset, 39 + offset, position);
        lemma_unknown_in_span(bits_a, 39 + offset, 51 + offset, position);
    } else {
        lemma_unknown_in_span(bits_a, 51 + offset, 45 + offset, position);
        lemma_unknown_in_span(bits_a, 39 + offset, 51 + offset, position);
    }
}

/// A span over an unknown bit is not known.
proof fn lemma_unknown_in_span(buffer: Seq<Option<bool>>, first: int, last: int, position: int)
    requires
        0 <= position < buffer.len(),
        first <= position <= last || last <= position <= first,
        buffer[position] is None,
    ensures
        !known(span(buffer, first, last)),
{
    let window = span(buffer, first, last);
    if first <= last {
        assert(window[position - first] is None);
    } else {
        assert(window[first - position] is None);
    }
}

/// An unknown B bit makes what it stands for unknown: a parity bit its parity, a bit of a
/// DUT1 count DUT1, and a DST flag that flag. A frame without a parity or without DUT1
/// does not pass the strict checks.
pub proof fn lemma_unknown_b_bit_voids_field(
    bits_a: Seq<Option<bool>>,
    bits_b: Seq<Option<bool>>,
    second: int,
    offset: int,
    position: int,
)
    requires
        -1 <= offset <= 1,
        bits_b.len() == BIT_BUFFER_SIZE,
        0 <= position < bits_b.len(),
        bits_b[position] is None,
    ensures
        ({
            let frame = frame_of(bits_a, bits_b, second, offset);
            let nominal = position - offset;
            &&& 1 <= position <= 15 ==> frame.dut1 is None && !frame.strict_ok()
            &&& position == 16 && offset != -1 ==> frame.dut1 is None && !frame.strict_ok()
            &&& nominal == 53 ==> frame.dst_announced is None
            &&& nominal == 54 ==> frame.parity_1 is None && !frame.strict_ok()
            &&& nominal == 55 ==> frame.parity_2 is None && !frame.strict_ok()
            &&& nominal == 56 ==> frame.parity_3 is None && !frame.strict_ok()
            &&& nominal == 57 ==> frame.parity_4 is None && !frame.strict_ok()
            &&& nominal == 58 ==> frame.dst_active is None
        }),
{
    let stop: int = if offset == -1 {
        15
    } else {
        16
    };
    if 1 <= position <= 8 {
        assert(bits_b.subrange(1, 9)[position - 1] is None);
    } else if 9 <= position <= stop {
        assert(bits_b.subrange(9, stop + 1)[position - 9] is None);
    }
}

/// An unknown A bit in the minute that is decoded reaches the decoder as an unknown parity
/// and reaches the calendar not at all: the field that the bit belongs to is what the
/// calendar had, a minute on if it was moved on, and never a number read from the bits.
pub proof fn lemma_decoding_keeps_unknown_out(state: DecoderView, strict: bool, position: int)
    requires
        state.wf(),
        state.at_end_of_minute(),
        17 <= position - frame_offset(state.minute_length()) <= 51,
        state.bits_a[position] is None,
    ensures
        ({
            let nominal = position - frame_offset(state.minute_length());
            let before = state.calendar_moved_on();
            let after = state.decoded(strict);
            &&& 17 <= nominal <= 24 ==> after.parity_1 is None && after.calendar.year
                == before.year
            &&& 25 <= nominal <= 29 ==> after.parity_2 is None && after.calendar.month
                == before.month
            &&& 30 <= nominal <= 35 ==> after.parity_2 is None && after.calendar.day
                == before.day
            &&& 36 <= nominal <= 38 ==> after.parity_3 is None && after.calendar.weekday
                == before.weekday
            &&& 39 <= nominal <= 44 ==> after.parity_4 is None && after.calendar.hour
                == before.hour
            &&& 45 <= nominal <= 51 ==> after.parity_4 is None && after.calendar.minute
                == before.minute
        }),
{
    let offset = frame_offset(state.minute_length());
    lemma_unknown_bit_voids_field(
        state.bits_a,
        state.bits_b,
        state.second as int,
        offset,
        position,
        strict,
    );
    lemma_calendar_keeps_out_bad_fields(
        state.calendar_moved_on(),
        state.frame(),
        strict,
        state.adds_minute(),
    );
}

/// A field that is unknown, or that is not trusted, leaves the calendar as it was: the
/// calendar keeps what it had, which in an empty calendar is nothing.
pub proof fn lemma_calendar_keeps_out_bad_fields(
    calendar: CalendarView,
    frame: Frame,
    strict: bool,
    check_jump: bool,
)
    ensures
        ({
            let filled = calendar.with_frame(frame, strict, check_jump);
            &&& frame.year is None || !frame.year_ok(strict) ==> filled.year == calendar.year
            &&& frame.month is None || !frame.month_ok(strict) ==> filled.month == calendar.month
            &&& frame.weekday is None || !frame.weekday_ok(strict) ==> filled.weekday
                == calendar.weekday
            &&& frame.day is None || !frame.day_ok(strict) ==> filled.day == calendar.day
            &&& frame.hour is None || !frame.time_ok(strict) ==> filled.hour == calendar.hour
            &&& frame.minute is None || !frame.time_ok(strict) ==> filled.minute
                == calendar.minute
            &&& frame.dst_active is None || frame.dst_announced is None ==> filled.dst
                == calendar.dst
        }),
{
}

/// A frame that fills a calendar makes it complete and makes it show the frame's date and
/// time, whatever the calendar showed before.
pub proof fn lemma_frame_fills_calendar(
    calendar: CalendarView,
    frame: Frame,
    strict: bool,
    check_jump: bool,
)
    requires
        frame.fills_calendar(strict, calendar.min_weekday, calendar.max_weekday),
    ensures
        calendar.with_frame(frame, strict, check_jump).complete(),
        calendar.with_frame(frame, strict, check_jump).date() == frame.date(),
{
}

/// A signal that stands still shows as a jump of the minute, and of nothing else.
///
/// Decode a minute whose frame fills the calendar and is good enough to end the first
/// minute, before the last minute of an hour. Then the first minute is over and the
/// calendar shows the frame's date and time. Decode again while the bits stand: the
/// calendar has moved on by a minute and the frame has not, so the calendar flags a jump of
/// the minute, takes the frame's minute again, and flags no jump of hour, day, weekday,
/// month or year.
pub proof fn lemma_static_signal_jumps_in_minute_only(state: DecoderView, strict: bool)
    requires
        state.wf(),
        state.at_end_of_minute(),
        state.frame().fills_calendar(
            strict,
            state.calendar.min_weekday,
            state.calendar.max_weekday,
        ),
        state.frame().ends_first_minute(strict),
        state.frame().minute.unwrap() < 59,
    ensures
        ({
            let once = state.decoded(strict);
            let twice = once.decoded(strict);
            &&& !once.first_minute
            &&& once.calendar.complete()
            &&& once.calendar.date() == state.frame().date()
            &&& twice.calendar.date() == state.frame().date()
            &&& twice.calendar.jump_minute
            &&& !twice.calendar.jump_hour
            &&& !twice.calendar.jump_day
            &&& !twice.calendar.jump_weekday
            &&& !twice.calendar.jump_month
            &&& !twice.calendar.jump_year
        }),
{
    let frame = state.frame();
    let once = state.decoded(strict);
    lemma_frame_fills_calendar(state.calendar_moved_on(), frame, strict, state.adds_minute());
    assert(once.frame() == frame);
    assert(once.at_end_of_minute());
    assert(once.adds_minute());
    lemma_frame_fills_calendar(once.calendar_moved_on(), frame, strict, true);
}

/// Under relaxed checks each field goes by its own parity, and the day by the three
/// parities of the date: a wrong weekday parity takes the weekday and the day out and
/// leaves the trust in year, month and time as it is. Under strict checks one wrong
/// parity, a missing DUT1 or a missing marker takes every field out.
pub proof fn lemma_strict_and_relaxed_gates(frame: Frame)
    ensures
        frame.parity_3 != Some(true) ==> {
            &&& !frame.weekday_ok(false)
            &&& !frame.day_ok(false)
            &&& frame.year_ok(false) == (frame.parity_1 == Some(true))
            &&& frame.month_ok(false) == (frame.parity_2 == Some(true))
            &&& frame.time_ok(false) == (frame.parity_4 == Some(true))
        },
        frame.parity_1 != Some(true) || frame.parity_2 != Some(true) ==> !frame.day_ok(false),
        frame.parity_1 != Some(true) || frame.parity_2 != Some(true) || frame.parity_3 != Some(
            true,
        ) || frame.parity_4 != Some(true) || frame.dut1 is None || !frame.marker ==> {
            &&& !frame.year_ok(true)
            &&& !frame.month_ok(true)
            &&& !frame.weekday_ok(true)
            &&& !frame.day_ok(true)
            &&& !frame.time_ok(true)
            &&& !frame.ends_first_minute(true)
        },
{
}

/// The state after each of `edges` was handled in turn; an edge is a pair of its direction
/// (`true` for high to low) and its time stamp.
pub open spec fn after_edges(state: DecoderView, edges: Seq<(bool, u32)>) -> DecoderView
    decreases edges.len(),
{
    if edges.len() == 0 {
        state
    } else {
        after_edges(state, edges.drop_last()).after_edge(edges.last().0, edges.last().1)
    }
}

/// The time stamp of the edge before edge `i` of `edges`, where `t0` is that of the edge
/// before the first of them.
pub open spec fn time_before(t0: u32, edges: Seq<(bool, u32)>, i: int) -> u32 {
    if i == 0 {
        t0
    } else {
        edges[i - 1].1
    }
}

/// Each of `edges` comes less than `limit` microseconds after the edge before it.
pub open spec fn is_spike_train(t0: u32, limit: u32, edges: Seq<(bool, u32)>) -> bool {
    forall|i: int|
        0 <= i < edges.len() ==> elapsed(time_before(t0, edges, i), (#[trigger] edges[i]).1)
            < limit
}

/// A train of spikes, however long it lasts in all, stores no bit, starts no second and
/// ends no interval: it only moves on the time from which the next interval is measured,
/// and takes back the marks of a new minute as every edge does. So the edge that follows
/// the train ends exactly one interval, measured from the last spike and classified
/// against the interval that was remembered before the train.
pub proof fn lemma_spikes_are_absorbed(state: DecoderView, edges: Seq<(bool, u32)>)
    requires
        !state.before_first_edge,
        edges.len() > 0,
        is_spike_train(state.t0, state.spike_limit, edges),
    ensures
        after_edges(state, edges) == (DecoderView {
            new_minute: false,
            past_new_minute: false,
            t0: edges.last().1,
            ..state
        }),
        forall|is_low_edge: bool, t: u32| #[trigger]
            after_edges(state, edges).after_edge(is_low_edge, t) == (DecoderView {
                t0: edges.last().1,
                ..state
            }).after_edge(is_low_edge, t),
    decreases edges.len(),
{
    let front = edges.drop_last();
    let last = edges.len() - 1;
    assert(edges[last] == edges.last());
    assert(elapsed(time_before(state.t0, edges, last), edges[last].1) < state.spike_limit);
    if front.len() > 0 {
        assert forall|i: int| 0 <= i < front.len() implies elapsed(
            time_before(state.t0, front, i),
            (#[trigger] front[i]).1,
        ) < state.spike_limit by {
            assert(front[i] == edges[i]);
            assert(time_before(state.t0, front, i) == time_before(state.t0, edges, i));
        }
        lemma_spikes_are_absorbed(state, front);
        assert(front.last() == edges[last - 1]);
    } else {
        assert(after_edges(state, front) == state);
    }
}

/// A leap second shifts the fields and changes none.
///
/// Take a nominal minute that ends in the end-of-minute marker at second 59. Take away one
/// second before second 17 (`offset` is -1), or put one in (`offset` is 1), so that every
/// bit from second 17 on stands one position earlier or later, whatever the bits before
/// it hold. Then the minute has 59 or 61 seconds, and its date, time, parities and DST
/// flags are those of the nominal minute.
pub proof fn lemma_leap_second_shifts_frame(
    nominal_a: Seq<Option<bool>>,
    nominal_b: Seq<Option<bool>>,
    leap_a: Seq<Option<bool>>,
    leap_b: Seq<Option<bool>>,
    offset: int,
)
    requires
        offset == 1 || offset == -1,
        nominal_a.len() == BIT_BUFFER_SIZE,
        nominal_b.len() == BIT_BUFFER_SIZE,
        leap_a.len() == BIT_BUFFER_SIZE,
        leap_b.len() == BIT_BUFFER_SIZE,
        marker_ends_at(nominal_a, 59, false),
        forall|i: int| 17 <= i <= 59 ==> leap_a[i + offset] == #[trigger] nominal_a[i],
        forall|i: int| 17 <= i <= 59 ==> leap_b[i + offset] == #[trigger] nominal_b[i],
    ensures
        length_of_minute(nominal_a, 59) == 60,
        length_of_minute(leap_a, (59 + offset) as u8) == 60 + offset,
        ({
            let nominal = frame_of(nominal_a, nominal_b, 59, 0);
            let leap = frame_of(leap_a, leap_b, 59 + offset, offset);
            leap == Frame { dut1: leap.dut1, ..nominal }
        }),
{
    lemma_shifted_span(nominal_a, leap_a, offset, 52, 59);
    lemma_shifted_span(nominal_a, leap_a, offset, 17, 24);
    lemma_shifted_span(nominal_a, leap_a, offset, 25, 35);
    lemma_shifted_span(nominal_a, leap_a, offset, 36, 38);
    lemma_shifted_span(nominal_a, leap_a, offset, 39, 51);
    lemma_shifted_span(nominal_a, leap_a, offset, 24, 17);
    lemma_shifted_span(nominal_a, leap_a, offset, 29, 25);
    lemma_shifted_span(nominal_a, leap_a, offset, 35, 30);
    lemma_shifted_span(nominal_a, leap_a, offset, 38, 36);
    lemma_shifted_span(nominal_a, leap_a, offset, 44, 39);
    lemma_shifted_span(nominal_a, leap_a, offset, 51, 45);
    assert(leap_b[53 + offset] == nominal_b[53]);
    assert(leap_b[54 + offset] == nominal_b[54]);
    assert(leap_b[55 + offset] == nominal_b[55]);
    assert(leap_b[56 + offset] == nominal_b[56]);
    assert(leap_b[57 + offset] == nominal_b[57]);
    assert(leap_b[58 + offset] == nominal_b[58]);
}

/// A span behind the leap second holds in the shifted buffer what it holds in the nominal
/// one.
proof fn lemma_shifted_span(
    nominal: Seq<Option<bool>>,
    leap: Seq<Option<bool>>,
    offset: int,
    first: int,
    last: int,
)
    requires
        -1 <= offset <= 1,
        nominal.len() == BIT_BUFFER_SIZE,
        leap.len() == BIT_BUFFER_SIZE,
        17 <= first <= 59,
        17 <= last <= 59,
        forall|i: int| 17 <= i <= 59 ==> leap[i + offset] == #[trigger] nominal[i],
    ensures
        span(leap, first + offset, last + offset) == span(nominal, first, last),
{
    let shifted = span(leap, first + offset, last + offset);
    let window = span(nominal, first, last);
    assert forall|k: int| 0 <= k < window.len() implies shifted[k] == window[k] by {
        if first <= last {
            assert(leap[first + k + offset] == nominal[first + k]);
        } else {
            assert(leap[first - k + offset] == nominal[first - k]);
        }
    }
    assert(shifted =~= window);
}

} // verus!
