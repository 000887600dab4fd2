//! The decoder: it turns edges into bits, counts the seconds of the minute, and at the end
//! of each minute hands the decoded fields to the calendar.

use crate::bit_fields::{span, BIT_BUFFER_SIZE};
use crate::calendar::{calendar_view, CalendarView, DST_ANNOUNCED, DST_SUMMER};
use crate::frame::{
    frame_of, frame_offset, length_of_minute, marker_bit, marker_ends_at, starts_marker, Frame,
    MARKER,
};
use crate::msf_helpers::{get_unary_value, lemma_ones_in_range};
use crate::timing::{
    elapsed, next_second, second_wraps, ACTIVE_0_LIMIT, ACTIVE_AB_LIMIT, ACTIVE_A_LIMIT,
    MINUTE_LIMIT, PASSIVE_RUNAWAY, SECOND, SPIKE_LIMIT,
};
use radio_datetime_utils::radio_datetime_helpers;
use radio_datetime_utils::RadioDateTimeUtils;
use vstd::prelude::*;

verus! {

/// MSF decoder.
pub struct MSFUtils {
    /// No minute has been decoded well enough yet.
    pub first_minute: bool,
    /// The end-of-minute marker was seen at the last edge.
    pub new_minute: bool,
    /// The long pulse at the begin of a minute was seen at the last edge.
    pub past_new_minute: bool,
    /// The last edge started a new second.
    pub new_second: bool,
    /// Second of the minute, which indexes both bit buffers.
    pub second: u8,
    /// The A bits of the minute, one for each second.
    pub bit_buffer_a: [Option<bool>; BIT_BUFFER_SIZE],
    /// The B bits of the minute, one for each second.
    pub bit_buffer_b: [Option<bool>; BIT_BUFFER_SIZE],
    /// The calendar that takes the decoded fields.
    pub radio_datetime: RadioDateTimeUtils,
    /// Parity over the year; `Some(true)` means that it is right.
    pub parity_1: Option<bool>,
    /// Parity over month and day.
    pub parity_2: Option<bool>,
    /// Parity over the weekday.
    pub parity_3: Option<bool>,
    /// Parity over hour and minute.
    pub parity_4: Option<bool>,
    /// DUT1 in tenths of a second.
    pub dut1: Option<i8>,
    /// No edge has been handled yet.
    pub before_first_edge: bool,
    /// Time stamp of the last edge, in microseconds.
    pub t0: u32,
    /// Length of the last interval between two edges that was not a spike.
    pub old_t_diff: u32,
    /// Intervals shorter than this many microseconds are spikes.
    pub spike_limit: u32,
    /// What the calendar has counted as minutes since minute 0. The calendar does not show
    /// this count, and fails when it overflows.
    pub minutes_running: u8,
    /// What the calendar has counted as DST announcements since minute 0. The calendar does
    /// not show this count, and fails when it overflows.
    pub dst_count: u8,
}

/// The state of a decoder.
pub struct DecoderView {
    pub first_minute: bool,
    pub new_minute: bool,
    pub past_new_minute: bool,
    pub new_second: bool,
    pub second: u8,
    pub bits_a: Seq<Option<bool>>,
    pub bits_b: Seq<Option<bool>>,
    pub calendar: CalendarView,
    pub parity_1: Option<bool>,
    pub parity_2: Option<bool>,
    pub parity_3: Option<bool>,
    pub parity_4: Option<bool>,
    pub dut1: Option<i8>,
    pub before_first_edge: bool,
    pub t0: u32,
    pub old_t_diff: u32,
    pub spike_limit: u32,
}

impl View for MSFUtils {
    type V = DecoderView;

    open spec fn view(&self) -> DecoderView {
        DecoderView {
            first_minute: self.first_minute,
            new_minute: self.new_minute,
            past_new_minute: self.past_new_minute,
            new_second: self.new_second,
            second: self.second,
            bits_a: self.bit_buffer_a@,
            bits_b: self.bit_buffer_b@,
            calendar: calendar_view(self.radio_datetime),
            parity_1: self.parity_1,
            parity_2: self.parity_2,
            parity_3: self.parity_3,
            parity_4: self.parity_4,
            dut1: self.dut1,
            before_first_edge: self.before_first_edge,
            t0: self.t0,
            old_t_diff: self.old_t_diff,
            spike_limit: self.spike_limit,
        }
    }
}

impl DecoderView {
    /// The state of a decoder at rest: no edge seen, no bit known, an empty calendar in
    /// which Sunday is day 0, and the first minute still to come.
    pub open spec fn at_rest() -> DecoderView {
        DecoderView {
            first_minute: true,
            new_minute: false,
            past_new_minute: false,
            new_second: false,
            second: 0,
            bits_a: Seq::new(BIT_BUFFER_SIZE as nat, |i: int| None),
            bits_b: Seq::new(BIT_BUFFER_SIZE as nat, |i: int| None),
            calendar: CalendarView::empty(0),
            parity_1: None,
            parity_2: None,
            parity_3: None,
            parity_4: None,
            dut1: None,
            before_first_edge: true,
            t0: 0,
            old_t_diff: 0,
            spike_limit: SPIKE_LIMIT,
        }
    }

    /// Both channels have a bit for every second that the counter can reach.
    pub open spec fn wf(self) -> bool {
        &&& self.second < BIT_BUFFER_SIZE
        &&& self.bits_a.len() == BIT_BUFFER_SIZE
        &&& self.bits_b.len() == BIT_BUFFER_SIZE
    }

    /// The end-of-minute marker ends at the current second, or is one bit short of it.
    pub open spec fn marker_present(self, predict: bool) -> bool {
        marker_ends_at(self.bits_a, self.second as int, predict)
    }

    /// The length of the current minute in seconds.
    pub open spec fn minute_length(self) -> u8 {
        length_of_minute(self.bits_a, self.second)
    }

    /// The current second is the last one of the minute.
    pub open spec fn at_end_of_minute(self) -> bool {
        self.second + 1 == self.minute_length()
    }

    /// What the bits of the minute say, read at its last second.
    pub open spec fn frame(self) -> Frame {
        frame_of(self.bits_a, self.bits_b, self.second as int, frame_offset(self.minute_length()))
    }

    /// The state with the bit pair of the current second replaced.
    pub open spec fn with_bit_pair(self, a: Option<bool>, b: Option<bool>) -> DecoderView {
        DecoderView {
            bits_a: self.bits_a.update(self.second as int, a),
            bits_b: self.bits_b.update(self.second as int, b),
            ..self
        }
    }

    /// The state after the active part of a second has ended, `t_diff` microseconds after
    /// the passive part before it, which took `self.old_t_diff` microseconds.
    ///
    /// The length of the active part tells the bit pair, and the length of the passive part
    /// before it must fit. A short active part is a bit pair (0,1) after another short part,
    /// a bit pair (0,0) after a gap that is long enough, and tells nothing otherwise; it is
    /// the only one that can end the end-of-minute marker. The longest of the active parts
    /// is the begin-of-minute marker, which stands at second 0 and counts as a bit pair
    /// (1,1); the gap before it is held to the same limit as the gap before a `1` bit. What
    /// fits nowhere is a broken bit.
    pub open spec fn after_active(self, t_diff: u32) -> DecoderView {
        let heard = DecoderView { new_second: false, ..self };
        if t_diff < ACTIVE_0_LIMIT {
            let stored = if 0 < self.old_t_diff < ACTIVE_0_LIMIT {
                heard.with_bit_pair(Some(false), Some(true))
            } else if self.old_t_diff > SECOND - MINUTE_LIMIT {
                heard.with_bit_pair(Some(false), Some(false))
            } else {
                heard
            };
            DecoderView { new_minute: stored.marker_present(false), ..stored }
        } else if t_diff < ACTIVE_A_LIMIT && self.old_t_diff > SECOND - ACTIVE_AB_LIMIT {
            heard.with_bit_pair(Some(true), Some(false))
        } else if t_diff < ACTIVE_AB_LIMIT && self.old_t_diff > SECOND - ACTIVE_AB_LIMIT {
            heard.with_bit_pair(Some(true), Some(true))
        } else if t_diff < MINUTE_LIMIT && self.old_t_diff > SECOND - ACTIVE_AB_LIMIT {
            (DecoderView { past_new_minute: true, second: 0, ..heard }).with_bit_pair(
                Some(true),
                Some(true),
            )
        } else {
            heard.with_bit_pair(None, None)
        }
    }

    /// The state after the passive part of a second has ended, `t_diff` microseconds after
    /// the active part before it: a new second starts if the passive part was long enough,
    /// and the signal was lost if it was too long.
    pub open spec fn after_passive(self, t_diff: u32) -> DecoderView {
        if t_diff < PASSIVE_RUNAWAY {
            DecoderView { new_second: t_diff > SECOND - MINUTE_LIMIT, ..self }
        } else {
            self.with_bit_pair(None, None)
        }
    }

    /// The edge at time `t` comes so soon after the last one that it is a spike.
    pub open spec fn is_spike(self, t: u32) -> bool {
        !self.before_first_edge && elapsed(self.t0, t) < self.spike_limit
    }

    /// The state after an edge at time `t`, which ends the active part of a second if
    /// `is_low_edge` is set and its passive part otherwise.
    ///
    /// Every edge takes the two marks of a new minute back and becomes the edge from which
    /// the next interval is measured. The first edge and a spike do nothing else. Any other
    /// edge ends an interval, which is classified and then remembered as the last one.
    pub open spec fn after_edge(self, is_low_edge: bool, t: u32) -> DecoderView {
        let quiet = DecoderView { new_minute: false, past_new_minute: false, t0: t, ..self };
        if self.before_first_edge {
            DecoderView { before_first_edge: false, ..quiet }
        } else if self.is_spike(t) {
            quiet
        } else {
            let t_diff = elapsed(self.t0, t);
            let classified = if is_low_edge {
                quiet.after_active(t_diff)
            } else {
                quiet.after_passive(t_diff)
            };
            DecoderView { old_t_diff: t_diff, ..classified }
        }
    }

    /// The state after the second counter was moved on.
    pub open spec fn second_increased(self) -> DecoderView {
        DecoderView {
            second: next_second(self.second, self.new_minute, self.minute_length()),
            ..self
        }
    }

    /// The calendar can take the call to add a minute.
    pub open spec fn can_add_minute(self) -> bool {
        !self.calendar.hour_underflows()
    }

    /// The calendar can take all that decoding the minute would hand to it: a minute added
    /// once the first minute is over, and at the end of a minute a DST state and one more
    /// minute counted.
    pub open spec fn can_decode(self) -> bool {
        &&& self.first_minute || self.can_add_minute()
        &&& self.at_end_of_minute() ==> {
            &&& self.calendar.minutes_running < u8::MAX
            &&& self.frame().dst_active is Some && self.frame().dst_announced is Some ==> 2
                * self.calendar.announcements(self.frame().dst_announced.unwrap()) <= u8::MAX
        }
    }

    /// The state after the jump flags were cleared and a minute was added.
    pub open spec fn minute_added(self) -> DecoderView {
        let cleared = self.calendar.cleared();
        DecoderView {
            calendar: if cleared.complete() {
                cleared.at(cleared.one_minute_later())
            } else {
                cleared
            },
            ..self
        }
    }

    /// Decoding the minute adds a minute to the calendar first: the first minute is over and
    /// the calendar is complete.
    pub open spec fn adds_minute(self) -> bool {
        !self.first_minute && self.calendar.complete()
    }

    /// The calendar as decoding the minute leaves it before any field is handed over: with
    /// the jump flags cleared and, unless this is the first minute, moved on by a minute.
    pub open spec fn calendar_moved_on(self) -> CalendarView {
        if self.adds_minute() {
            self.minute_added().calendar
        } else {
            self.calendar.cleared()
        }
    }

    /// The state after the minute was decoded.
    ///
    /// The jump flags of the calendar are cleared, and unless this is the first minute, the
    /// calendar is moved on by a minute. Then, only at the last second of the minute: the
    /// parities and DUT1 are those of the frame; the calendar is handed the fields, which
    /// it checks for jumps if it was moved on; the first minute ends if the frame is good
    /// enough and the calendar has become complete; and the calendar counts one more
    /// minute.
    pub open spec fn decoded(self, strict_checks: bool) -> DecoderView {
        if self.at_end_of_minute() {
            let frame = self.frame();
            let filled = self.calendar_moved_on().with_frame(
                frame,
                strict_checks,
                self.adds_minute(),
            );
            DecoderView {
                parity_1: frame.parity_1,
                parity_2: frame.parity_2,
                parity_3: frame.parity_3,
                parity_4: frame.parity_4,
                dut1: frame.dut1,
                first_minute: self.first_minute && !(frame.ends_first_minute(strict_checks)
                    && filled.complete()),
                calendar: filled.bumped(),
                ..self
            }
        } else {
            DecoderView { calendar: self.calendar_moved_on(), ..self }
        }
    }
}

impl MSFUtils {
    /// The second counter lies in the bit buffers, and the two counts kept beside the
    /// calendar are those of the calendar.
    pub open spec fn wf(&self) -> bool {
        &&& self@.wf()
        &&& self.minutes_running == self@.calendar.minutes_running
        &&& self.dst_count == self@.calendar.dst_count
    }

    /// A decoder at rest: no edge seen, no bit known, an empty calendar.
    pub fn new() -> (decoder: Self)
        ensures
            decoder.wf(),
            decoder@ == DecoderView::at_rest(),
    {
        let decoder = Self {
            first_minute: true,
            new_minute: false,
            past_new_minute: false,
            new_second: false,
            second: 0,
            bit_buffer_a: [None;BIT_BUFFER_SIZE],
            bit_buffer_b: [None;BIT_BUFFER_SIZE],
            radio_datetime: RadioDateTimeUtils::new(0),
            parity_1: None,
            parity_2: None,
            parity_3: None,
            parity_4: None,
            dut1: None,
            before_first_edge: true,
            t0: 0,
            old_t_diff: 0,
            spike_limit: SPIKE_LIMIT,
            minutes_running: 0,
            dst_count: 0,
        };
        assert(decoder@.bits_a =~= Seq::new(BIT_BUFFER_SIZE as nat, |i: int| None));
        assert(decoder@.bits_b =~= Seq::new(BIT_BUFFER_SIZE as nat, |i: int| None));
        decoder
    }

    /// Determine the length of this minute in seconds.
    pub fn get_minute_length(&self) -> (length: u8)
        requires
            self.wf(),
        ensures
            length == self@.minute_length(),
    {
        if 58 <= self.second && self.second <= 60 && self.search_eom_marker(false) {
            self.second + 1
        } else if self.second == 59 && self.search_eom_marker(true) {
            61
        } else {
            60
        }
    }

    /// Return if the end-of-minute marker (0111_1110) is present at the end of the A bits.
    ///
    /// This method must be called _before_ `increase_second()`.
    pub fn end_of_minute_marker_present(&self) -> (present: bool)
        requires
            self.wf(),
        ensures
            present == self@.marker_present(false),
    {
        self.search_eom_marker(false)
    }

    /// Return if the end-of-minute marker ends at the current second or, with `predict`, if
    /// all but its last bit end there.
    pub fn search_eom_marker(&self, predict: bool) -> (present: bool)
        requires
            self.wf(),
        ensures
            present == self@.marker_present(predict),
    {
        if self.second < 7 {
            return false;  // not enough bits to test
        }
        let first: usize = if predict {
            self.second as usize - 6
        } else {
            self.second as usize - 7
        };
        let ghost window = span(self.bit_buffer_a@, first as int, self.second as int);
        let mut idx: usize = 0;
        while first + idx <= self.second as usize
            invariant
                self.second < BIT_BUFFER_SIZE,
                self.second >= 7,
                predict ==> first == self.second - 6,
                !predict ==> first == self.second - 7,
                first + idx <= self.second + 1,
                window == span(self.bit_buffer_a@, first as int, self.second as int),
                forall|k: int| 0 <= k < idx ==> (#[trigger] window[k]) == Some(marker_bit(k)),
            decreases self.second + 1 - first - idx,
        {
            let bit: Option<bool> = self.bit_buffer_a[first + idx];
            assert(window[idx as int] == bit);
            assert(MARKER[idx as int] == marker_bit(idx as int));
            if bit.is_none() || bit != Some(MARKER[idx]) {
                assert(window[idx as int] != Some(marker_bit(idx as int)));
                assert(!starts_marker(window));
                return false;
            }
            idx += 1;
        }
        assert(starts_marker(window));
        true
    }

    /// Return if this is the first minute that is decoded.
    pub fn get_first_minute(&self) -> (first_minute: bool)
        ensures
            first_minute == self@.first_minute,
    {
        self.first_minute
    }

    /// Return if a new minute (0111_1110 marker) has arrived.
    pub fn get_new_minute(&self) -> (new_minute: bool)
        ensures
            new_minute == self@.new_minute,
    {
        self.new_minute
    }

    /// Return if the 500 ms long begin-of-minute marker has arrived.
    pub fn get_past_new_minute(&self) -> (past_new_minute: bool)
        ensures
            past_new_minute == self@.past_new_minute,
    {
        self.past_new_minute
    }

    /// Force the arrival of a new minute (0111_1110 version).
    ///
    /// This could be useful when reading from a log file.
    ///
    /// This method must be called _before_ `increase_second()`.
    pub fn force_new_minute(&mut self)
        ensures
            final(self).wf() == old(self).wf(),
            final(self)@ == (DecoderView { new_minute: true, past_new_minute: false, ..old(self)@ }),
    {
        self.new_minute = true;
        self.past_new_minute = false;
    }

    /// Force the arrival of a new minute (begin-of-minute version): the second counter goes
    /// back to 0, where the bit pair of the marker is stored.
    ///
    /// This could be useful when reading from a log file.
    ///
    /// This method must be called _before_ `increase_second()`.
    pub fn force_past_new_minute(&mut self)
        requires
            old(self).wf(),
        ensures
            final(self).wf(),
            final(self)@ == (DecoderView {
                new_minute: false,
                past_new_minute: true,
                second: 0,
                ..old(self)@
            }).with_bit_pair(Some(true), Some(true)),
    {
        self.new_minute = false;
        self.past_new_minute = true;
        self.second = 0;
        self.bit_buffer_a[0] = Some(true);
        self.bit_buffer_b[0] = Some(true);
    }

    /// Return if a new second has arrived.
    pub fn get_new_second(&self) -> (new_second: bool)
        ensures
            new_second == self@.new_second,
    {
        self.new_second
    }

    /// Get the second counter.
    pub fn get_second(&self) -> (second: u8)
        ensures
            second == self@.second,
    {
        self.second
    }

    /// Get the value of the current A bit.
    pub fn get_current_bit_a(&self) -> (bit: Option<bool>)
        requires
            self.wf(),
        ensures
            bit == self@.bits_a[self@.second as int],
    {
        self.bit_buffer_a[self.second as usize]
    }

    /// Get the value of the current B bit.
    pub fn get_current_bit_b(&self) -> (bit: Option<bool>)
        requires
            self.wf(),
        ensures
            bit == self@.bits_b[self@.second as int],
    {
        self.bit_buffer_b[self.second as usize]
    }

    /// Set the value of the current A bit and clear the flag indicating arrival of a new
    /// minute.
    ///
    /// This could be useful when reading from a log file.
    ///
    /// This method must be called _before_ `increase_second()`.
    ///
    /// # Arguments
    /// * `value` - the value to set the current bit to
    pub fn set_current_bit_a(&mut self, value: Option<bool>)
        requires
            old(self).wf(),
        ensures
            final(self).wf(),
            final(self)@ == (DecoderView {
                bits_a: old(self)@.bits_a.update(old(self)@.second as int, value),
                new_minute: false,
                past_new_minute: false,
                ..old(self)@
            }),
    {
        self.bit_buffer_a[self.second as usize] = value;
        self.new_minute = false;
        self.past_new_minute = false;
    }

    /// Set the value of the current B bit and clear the flag indicating arrival of a new
    /// minute.
    ///
    /// This could be useful when reading from a log file.
    ///
    /// This method must be called _before_ `increase_second()`.
    ///
    /// # Arguments
    /// * `value` - the value to set the current bit to
    pub fn set_current_bit_b(&mut self, value: Option<bool>)
        requires
            old(self).wf(),
        ensures
            final(self).wf(),
            final(self)@ == (DecoderView {
                bits_b: old(self)@.bits_b.update(old(self)@.second as int, value),
                new_minute: false,
                past_new_minute: false,
                ..old(self)@
            }),
    {
        self.bit_buffer_b[self.second as usize] = value;
        self.new_minute = false;
        self.past_new_minute = false;
    }

    /// Get a copy of the date/time structure.
    pub fn get_radio_datetime(&self) -> (calendar: RadioDateTimeUtils)
        ensures
            calendar == self.radio_datetime,
            calendar_view(calendar) == self@.calendar,
    {
        self.radio_datetime
    }

    /// Get the year parity bit, Some(true) means OK.
    pub fn get_parity_1(&self) -> (parity: Option<bool>)
        ensures
            parity == self@.parity_1,
    {
        self.parity_1
    }

    /// Get the month/day parity bit, Some(true) means OK.
    pub fn get_parity_2(&self) -> (parity: Option<bool>)
        ensures
            parity == self@.parity_2,
    {
        self.parity_2
    }

    /// Get the weekday parity bit, Some(true) means OK.
    pub fn get_parity_3(&self) -> (parity: Option<bool>)
        ensures
            parity == self@.parity_3,
    {
        self.parity_3
    }

    /// Get the hour/minute parity bit, Some(true) means OK.
    pub fn get_parity_4(&self) -> (parity: Option<bool>)
        ensures
            parity == self@.parity_4,
    {
        self.parity_4
    }

    /// Get the value of DUT1 (UT1 - UTC) in deci-seconds.
    pub fn get_dut1(&self) -> (dut1: Option<i8>)
        ensures
            dut1 == self@.dut1,
    {
        self.dut1
    }

    /// Return the current spike limit in microseconds.
    pub fn get_spike_limit(&self) -> (spike_limit: u32)
        ensures
            spike_limit == self@.spike_limit,
    {
        self.spike_limit
    }

    /// Set the new spike limit in microseconds, [0(off)..ACTIVE_0_LIMIT). A value outside
    /// this range is ignored.
    ///
    /// # Arguments
    /// * `value` - the value to set the spike limit to.
    pub fn set_spike_limit(&mut self, value: u32)
        ensures
            final(self).wf() == old(self).wf(),
            final(self)@ == (DecoderView {
                spike_limit: if value < ACTIVE_0_LIMIT {
                    value
                } else {
                    old(self)@.spike_limit
                },
                ..old(self)@
            }),
    {
        if value < ACTIVE_0_LIMIT {
            self.spike_limit = value;
        }
    }

    /// Determine the bit value if a new edge is received, indicate reception errors, and
    /// check if a new minute has started.
    ///
    /// This function can deal with spikes, which are shorter than `spike_limit`
    /// microseconds.
    ///
    /// This method must be called _before_ `increase_second()`.
    ///
    /// # Arguments
    /// * `is_low_edge` - indicates that the edge has gone from high to low (as opposed to
    ///   low-to-high).
    /// * `t` - time stamp of the received edge, in microseconds
    pub fn handle_new_edge(&mut self, is_low_edge: bool, t: u32)
        requires
            old(self).wf(),
        ensures
            final(self).wf(),
            final(self)@ == old(self)@.after_edge(is_low_edge, t),
    {
        self.new_minute = false;
        self.past_new_minute = false;
        if self.before_first_edge {
            self.before_first_edge = false;
            self.t0 = t;
            return;
        }
        let t_diff: u32 = radio_datetime_helpers::time_diff(self.t0, t);
        if t_diff < self.spike_limit {
            // Shift t0 to deal with a train of spikes adding up to more than `spike_limit`
            // microseconds.
            self.t0 = self.t0.wrapping_add(t_diff);
            return;  // random positive or negative spike, ignore
        }
        self.t0 = t;
        if is_low_edge {
            self.new_second = false;
            if t_diff < ACTIVE_0_LIMIT {
                if self.old_t_diff > 0 && self.old_t_diff < ACTIVE_0_LIMIT {
                    self.bit_buffer_a[self.second as usize] = Some(false);
                    self.bit_buffer_b[self.second as usize] = Some(true);
                } else if self.old_t_diff > SECOND - MINUTE_LIMIT {
                    self.bit_buffer_a[self.second as usize] = Some(false);
                    self.bit_buffer_b[self.second as usize] = Some(false);
                }
                self.new_minute = self.end_of_minute_marker_present();
            } else if t_diff < ACTIVE_A_LIMIT && self.old_t_diff > SECOND - ACTIVE_AB_LIMIT {
                self.bit_buffer_a[self.second as usize] = Some(true);
                self.bit_buffer_b[self.second as usize] = Some(false);
            } else if t_diff < ACTIVE_AB_LIMIT && self.old_t_diff > SECOND - ACTIVE_AB_LIMIT {
                self.bit_buffer_a[self.second as usize] = Some(true);
                self.bit_buffer_b[self.second as usize] = Some(true);
            } else if t_diff < MINUTE_LIMIT && self.old_t_diff > SECOND - ACTIVE_AB_LIMIT {
                self.past_new_minute = true;
                self.second = 0;
                self.bit_buffer_a[0] = Some(true);
                self.bit_buffer_b[0] = Some(true);
            } else {
                // active runaway or first low edge
                self.bit_buffer_a[self.second as usize] = None;
                self.bit_buffer_b[self.second as usize] = None;
            }
        } else if t_diff < PASSIVE_RUNAWAY {
            self.new_second = t_diff > SECOND - MINUTE_LIMIT;
        } else {
            self.bit_buffer_a[self.second as usize] = None;
            self.bit_buffer_b[self.second as usize] = None;
        }
        self.old_t_diff = t_diff;
    }

    /// Increase or reset `second`.
    ///
    /// Returns if the second counter was increased/wrapped normally (true)
    /// or due to an overflow (false).
    ///
    /// This method must be called _after_ `decode_time()`, `handle_new_edge()`,
    /// `set_current_bit_a()`, `set_current_bit_b()`, `end_of_minute_marker_present()`
    /// and `force_new_minute()`.
    pub fn increase_second(&mut self) -> (regular: bool)
        requires
            old(self).wf(),
        ensures
            final(self).wf(),
            final(self)@ == old(self)@.second_increased(),
            regular == (old(self).new_minute || !second_wraps(
                old(self).second,
                old(self).new_minute,
                old(self)@.minute_length(),
            )),
    {
        let minute_length: u8 = self.get_minute_length();
        radio_datetime_helpers::increase_second(&mut self.second, self.new_minute, minute_length)
    }

    /// Return if the calendar can take the call to add a minute. It cannot at 0:59 while a
    /// change to winter time is announced.
    pub fn can_add_minute(&self) -> (ready: bool)
        ensures
            ready == self@.can_add_minute(),
    {
        let due = self.radio_datetime.is_valid() && self.radio_datetime.get_minute() == Some(59)
            && self.radio_datetime.get_hour() == Some(0);
        if due {
            match self.radio_datetime.get_dst() {
                Some(mask) => !(mask & DST_ANNOUNCED != 0 && mask & DST_SUMMER != 0),
                None => true,
            }
        } else {
            true
        }
    }

    /// Clear the jump flags of the calendar and add a minute to it, and pass on whether the
    /// minute was added.
    ///
    /// This could be useful for consumers just wanting to advance their current date/time.
    pub fn add_minute(&mut self) -> (added: bool)
        requires
            old(self).wf(),
            old(self)@.can_add_minute(),
        ensures
            final(self).wf(),
            final(self)@ == old(self)@.minute_added(),
            added == old(self)@.calendar.complete(),
    {
        proof {
            lemma_clearing_keeps_dst_change(old(self)@.calendar);
        }
        self.radio_datetime.clear_jumps();
        self.radio_datetime.add_minute()
    }

    /// Add a minute as `add_minute()` does, if the calendar can take it, and return whether
    /// the minute was added. If it cannot, do nothing and return `None`.
    pub fn try_add_minute(&mut self) -> (added: Option<bool>)
        requires
            old(self).wf(),
        ensures
            final(self).wf(),
            match added {
                Some(added) => {
                    &&& old(self)@.can_add_minute()
                    &&& final(self)@ == old(self)@.minute_added()
                    &&& added == old(self)@.calendar.complete()
                },
                None => !old(self)@.can_add_minute() && *final(self) == *old(self),
            },
    {
        if self.can_add_minute() {
            Some(self.add_minute())
        } else {
            None
        }
    }

    /// Return if the calendar can take all that `decode_time()` would hand to it now.
    pub fn can_decode(&self) -> (ready: bool)
        requires
            self.wf(),
        ensures
            ready == self@.can_decode(),
    {
        if !self.first_minute && !self.can_add_minute() {
            return false;
        }
        if self.second + 1 == self.get_minute_length() {
            if self.minutes_running == u8::MAX {
                return false;
            }
            let frame = self.read_frame();
            if frame.dst_active.is_some() && frame.dst_announced.is_some() {
                let announcements: u16 = if frame.dst_announced == Some(true) {
                    self.dst_count as u16 + 1
                } else {
                    self.dst_count as u16
                };
                if 2 * announcements > u8::MAX as u16 {
                    return false;
                }
            }
        }
        true
    }

    /// Read the fields of the minute from the bit buffers, as they stand if the current
    /// second is the last one of the minute.
    pub fn read_frame(&self) -> (frame: Frame)
        requires
            self.wf(),
        ensures
            frame == self@.frame(),
    {
        let minute_length: u8 = self.get_minute_length();
        let offset: isize = if minute_length > 60 {
            1
        } else if minute_length == 60 {
            0
        } else {
            -1
        };
        // bit 16 is dropped in case of a negative leap second
        let stop: usize = if offset == -1 {
            15
        } else {
            16
        };
        proof {
            lemma_ones_in_range(self.bit_buffer_b@.subrange(1, 9));
            lemma_ones_in_range(self.bit_buffer_b@.subrange(9, stop + 1));
        }
        let mut dut1: Option<i8> = None;
        if let Some(dut1p) = get_unary_value(&self.bit_buffer_b, 1, 8) {
            if let Some(dut1n) = get_unary_value(&self.bit_buffer_b, 9, stop) {
                dut1 = if dut1p == 0 || dut1n == 0 {
                    Some(dut1p - dut1n)
                } else {
                    None
                };
            }
        }
        Frame {
            parity_1: radio_datetime_helpers::get_parity(
                &self.bit_buffer_a,
                (17 + offset) as usize,
                (24 + offset) as usize,
                self.bit_buffer_b[(54 + offset) as usize],
            ),
            parity_2: radio_datetime_helpers::get_parity(
                &self.bit_buffer_a,
                (25 + offset) as usize,
                (35 + offset) as usize,
                self.bit_buffer_b[(55 + offset) as usize],
            ),
            parity_3: radio_datetime_helpers::get_parity(
                &self.bit_buffer_a,
                (36 + offset) as usize,
                (38 + offset) as usize,
                self.bit_buffer_b[(56 + offset) as usize],
            ),
            parity_4: radio_datetime_helpers::get_parity(
                &self.bit_buffer_a,
                (39 + offset) as usize,
                (51 + offset) as usize,
                self.bit_buffer_b[(57 + offset) as usize],
            ),
            dut1,
            year: radio_datetime_helpers::get_bcd_value(
                &self.bit_buffer_a,
                (24 + offset) as usize,
                (17 + offset) as usize,
            ),
            month: radio_datetime_helpers::get_bcd_value(
                &self.bit_buffer_a,
                (29 + offset) as usize,
                (25 + offset) as usize,
            ),
            day: radio_datetime_helpers::get_bcd_value(&self.bit_buffer_a, (35 + offset) as usize, (30 + offset) as usize),
            weekday: radio_datetime_helpers::get_bcd_value(
                &self.bit_buffer_a,
                (38 + offset) as usize,
                (36 + offset) as usize,
            ),
            hour: radio_datetime_helpers::get_bcd_value(
                &self.bit_buffer_a,
                (44 + offset) as usize,
                (39 + offset) as usize,
            ),
            minute: radio_datetime_helpers::get_bcd_value(
                &self.bit_buffer_a,
                (51 + offset) as usize,
                (45 + offset) as usize,
            ),
            dst_active: self.bit_buffer_b[(58 + offset) as usize],
            dst_announced: self.bit_buffer_b[(53 + offset) as usize],
            marker: self.end_of_minute_marker_present(),
        }
    }

    /// Hand the fields of `frame` to the calendar, each with its mark of trust, end the first
    /// minute if frame and calendar allow it, and let the calendar count the minute.
    fn hand_over(&mut self, frame: &Frame, strict_checks: bool, check_jump: bool)
        requires
            old(self).wf(),
            old(self)@.calendar.minutes_running < u8::MAX,
            frame.dst_active is Some && frame.dst_announced is Some ==> 2
                * old(self)@.calendar.announcements(frame.dst_announced.unwrap()) <= u8::MAX,
        ensures
            final(self).wf(),
            final(self)@ == (DecoderView {
                first_minute: old(self).first_minute && !(frame.ends_first_minute(strict_checks)
                    && old(self)@.calendar.with_frame(*frame, strict_checks, check_jump).complete()),
                calendar: old(self)@.calendar.with_frame(
                    *frame,
                    strict_checks,
                    check_jump,
                ).bumped(),
                ..old(self)@
            }),
    {
        let strict_ok = frame.parity_1 == Some(true) && frame.parity_2 == Some(true)
            && frame.parity_3 == Some(true) && frame.parity_4 == Some(true)
            && frame.dut1.is_some() && frame.marker;
        set_fields(&mut self.radio_datetime, frame, strict_checks, check_jump);

        // the calendar starts both of its counts anew at minute 0
        let at_full_hour = self.radio_datetime.get_minute() == Some(0);
        self.radio_datetime.set_dst(frame.dst_active, frame.dst_announced, check_jump);
        if frame.dst_active.is_some() && frame.dst_announced.is_some() {
            if at_full_hour {
                self.dst_count = 0;
            } else if frame.dst_announced == Some(true) {
                self.dst_count += 1;
            }
        }

        if (if strict_checks {
            strict_ok
        } else {
            frame.dut1.is_some()
        }) && self.radio_datetime.is_valid() {
            // allow displaying of information after the first properly decoded minute
            self.first_minute = false;
        }

        self.radio_datetime.bump_minutes_running();
        if at_full_hour {
            self.minutes_running = 0;
        } else {
            self.minutes_running += 1;
        }
    }

    /// Decode the time broadcast during the last minute and clear `first_minute` when
    /// appropriate.
    ///
    /// This method must be called _before_ `increase_second()`.
    ///
    /// # Arguments
    /// * `strict_checks` - checks all parities, DUT1 validity, and EOM marker presence when
    ///   setting date/time and clearing `first_minute`
    pub fn decode_time(&mut self, strict_checks: bool)
        requires
            old(self).wf(),
            old(self)@.can_decode(),
        ensures
            final(self).wf(),
            final(self)@ == old(self)@.decoded(strict_checks),
    {
        proof {
            lemma_clearing_keeps_dst_change(old(self)@.calendar);
        }
        self.radio_datetime.clear_jumps();
        let minute_length: u8 = self.get_minute_length();  // calculation depends on self.second
        let mut added_minute = false;
        if !self.first_minute {
            added_minute = self.radio_datetime.add_minute();
        }
        if self.second + 1 == minute_length {
            let frame = self.read_frame();
            self.parity_1 = frame.parity_1;
            self.parity_2 = frame.parity_2;
            self.parity_3 = frame.parity_3;
            self.parity_4 = frame.parity_4;
            self.dut1 = frame.dut1;
            self.hand_over(&frame, strict_checks, added_minute && !self.first_minute);
        }
    }
    /// Decode the minute as `decode_time()` does, if the calendar can take it, and return
    /// whether it was decoded. If not, do nothing.
    pub fn try_decode_time(&mut self, strict_checks: bool) -> (decoded: bool)
        requires
            old(self).wf(),
        ensures
            final(self).wf(),
            decoded == old(self)@.can_decode(),
            decoded ==> final(self)@ == old(self)@.decoded(strict_checks),
            !decoded ==> *final(self) == *old(self),
    {
        if self.can_decode() {
            self.decode_time(strict_checks);
            true
        } else {
            false
        }
    }
}

impl Default for MSFUtils {
    fn default() -> (decoder: Self)
        ensures
            decoder.wf(),
            decoder@ == DecoderView::at_rest(),
    {
        Self::new()
    }
}

/// Hand date and time of `frame` to the calendar, each field with its mark of trust.
fn set_fields(
    calendar: &mut RadioDateTimeUtils,
    frame: &Frame,
    strict_checks: bool,
    check_jump: bool,
)
    ensures
        calendar_view(*final(calendar)) == calendar_view(*old(calendar)).with_fields(
            *frame,
            strict_checks,
            check_jump,
        ),
{
    let strict_ok = frame.parity_1 == Some(true) && frame.parity_2 == Some(true)
        && frame.parity_3 == Some(true) && frame.parity_4 == Some(true)
        && frame.dut1.is_some() && frame.marker;

    calendar.set_year(
        frame.year,
        if strict_checks {
            strict_ok
        } else {
            frame.parity_1 == Some(true)
        },
        check_jump,
    );
    calendar.set_month(
        frame.month,
        if strict_checks {
            strict_ok
        } else {
            frame.parity_2 == Some(true)
        },
        check_jump,
    );
    calendar.set_weekday(
        frame.weekday,
        if strict_checks {
            strict_ok
        } else {
            frame.parity_3 == Some(true)
        },
        check_jump,
    );
    calendar.set_day(
        frame.day,
        if strict_checks {
            strict_ok
        } else {
            frame.parity_1 == Some(true) && frame.parity_2 == Some(true) && frame.parity_3
                == Some(true)
        },
        check_jump,
    );
    calendar.set_hour(
        frame.hour,
        if strict_checks {
            strict_ok
        } else {
            frame.parity_4 == Some(true)
        },
        check_jump,
    );
    calendar.set_minute(
        frame.minute,
        if strict_checks {
            strict_ok
        } else {
            frame.parity_4 == Some(true)
        },
        check_jump,
    );
}

/// Clearing the jump bit of the DST mask changes nothing in whether a DST change is announced
/// or DST is active, so the calendar can add a minute after it if it could before.
pub proof fn lemma_clearing_keeps_dst_change(calendar: CalendarView)
    ensures
        calendar.cleared().hour_underflows() == calendar.hour_underflows(),
{
    if calendar.dst is Some {
        let mask = calendar.dst.unwrap();
        assert((mask & !4u8) & 1u8 == mask & 1u8 && (mask & !4u8) & 8u8 == mask & 8u8)
            by (bit_vector);
    }
}

} // verus!
