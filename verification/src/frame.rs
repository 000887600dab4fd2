//! The layout of a minute: the end-of-minute marker, the length of the minute, and where each
//! field stands in the two bit channels.
//!
//! A nominal minute has 60 seconds, numbered from 0. A leap second is inserted or left out
//! after second 16, so the fields behind it stand one position later in a minute of 61
//! seconds and one position earlier in a minute of 59 seconds.

use crate::bit_fields::{bcd_value, parity_value, span};
use crate::calendar::{dst_after, month_length, CalendarDate, CalendarView};
use crate::msf_helpers::unary_value;
use vstd::prelude::*;

verus! {

/// The end-of-minute marker, `01111110`.
pub const MARKER: [bool; 8] = [false, true, true, true, true, true, true, false];

/// Bit `k` of the end-of-minute marker.
pub open spec fn marker_bit(k: int) -> bool {
    0 < k < 7
}

/// `window` holds the end-of-minute marker, or as many of its first bits as it has bits.
pub open spec fn starts_marker(window: Seq<Option<bool>>) -> bool {
    forall|k: int| 0 <= k < window.len() ==> (#[trigger] window[k]) == Some(marker_bit(k))
}

/// The end-of-minute marker stands in the eight A bits that end at `second`; or, if
/// `predict` is set, its first seven bits stand in the seven A bits that end at `second`, so
/// that the marker may be complete one second later.
pub open spec fn marker_ends_at(bits_a: Seq<Option<bool>>, second: int, predict: bool) -> bool {
    &&& second >= 7
    &&& if predict {
        starts_marker(span(bits_a, second - 6, second))
    } else {
        starts_marker(span(bits_a, second - 7, second))
    }
}

/// The length of the minute in seconds, as far as the A bits up to `second` show it: what
/// the marker says if it ends here, 61 if at second 59 it is about to end one second late,
/// and 60 otherwise.
pub open spec fn length_of_minute(bits_a: Seq<Option<bool>>, second: u8) -> u8 {
    if 58 <= second <= 60 && marker_ends_at(bits_a, second as int, false) {
        (second + 1) as u8
    } else if second == 59 && marker_ends_at(bits_a, second as int, true) {
        61
    } else {
        60
    }
}

/// By how many positions the fields behind second 16 are shifted in a minute of the given
/// length.
pub open spec fn frame_offset(minute_length: u8) -> int {
    if minute_length > 60 {
        1
    } else if minute_length == 60 {
        0
    } else {
        -1
    }
}

/// DUT1 in tenths of a second, from the B bits. Bits 1 to 8 count the positive tenths in
/// unary and bits 9 to 16 the negative ones; a negative leap second takes bit 16 away. The
/// value is known only if both counts are, and not both are above 0.
pub open spec fn dut1_value(bits_b: Seq<Option<bool>>, offset: int) -> Option<i8> {
    let stop: int = if offset == -1 {
        15
    } else {
        16
    };
    let positive = unary_value(bits_b.subrange(1, 9));
    let negative = unary_value(bits_b.subrange(9, stop + 1));
    if positive is Some && negative is Some && (positive.unwrap() == 0 || negative.unwrap() == 0) {
        Some((positive.unwrap() - negative.unwrap()) as i8)
    } else {
        None
    }
}

/// What one minute of bits says.
pub struct Frame {
    /// Parity over the year; `Some(true)` means that it is right.
    pub parity_1: Option<bool>,
    /// Parity over month and day.
    pub parity_2: Option<bool>,
    /// Parity over the weekday.
    pub parity_3: Option<bool>,
    /// Parity over hour and minute.
    pub parity_4: Option<bool>,
    pub dut1: Option<i8>,
    pub year: Option<u8>,
    pub month: Option<u8>,
    pub day: Option<u8>,
    pub weekday: Option<u8>,
    pub hour: Option<u8>,
    pub minute: Option<u8>,
    pub dst_active: Option<bool>,
    pub dst_announced: Option<bool>,
    /// The end-of-minute marker is in place.
    pub marker: bool,
}

/// The frame that the two channels hold at `second`, the last second of a minute whose
/// fields are shifted by `offset`.
pub open spec fn frame_of(
    bits_a: Seq<Option<bool>>,
    bits_b: Seq<Option<bool>>,
    second: int,
    offset: int,
) -> Frame {
    Frame {
        parity_1: parity_value(span(bits_a, 17 + offset, 24 + offset), bits_b[54 + offset]),
        parity_2: parity_value(span(bits_a, 25 + offset, 35 + offset), bits_b[55 + offset]),
        parity_3: parity_value(span(bits_a, 36 + offset, 38 + offset), bits_b[56 + offset]),
        parity_4: parity_value(span(bits_a, 39 + offset, 51 + offset), bits_b[57 + offset]),
        dut1: dut1_value(bits_b, offset),
        year: bcd_value(span(bits_a, 24 + offset, 17 + offset)),
        month: bcd_value(span(bits_a, 29 + offset, 25 + offset)),
        day: bcd_value(span(bits_a, 35 + offset, 30 + offset)),
        weekday: bcd_value(span(bits_a, 38 + offset, 36 + offset)),
        hour: bcd_value(span(bits_a, 44 + offset, 39 + offset)),
        minute: bcd_value(span(bits_a, 51 + offset, 45 + offset)),
        dst_active: bits_b[58 + offset],
        dst_announced: bits_b[53 + offset],
        marker: marker_ends_at(bits_a, second, false),
    }
}

impl Frame {
    /// All that a strict check asks for: four right parities, a DUT1 and the marker.
    pub open spec fn strict_ok(self) -> bool {
        &&& self.parity_1 == Some(true)
        &&& self.parity_2 == Some(true)
        &&& self.parity_3 == Some(true)
        &&& self.parity_4 == Some(true)
        &&& self.dut1 is Some
        &&& self.marker
    }

    /// The year can be trusted: under strict checks if the whole frame passes them, else if
    /// its own parity is right.
    pub open spec fn year_ok(self, strict: bool) -> bool {
        if strict {
            self.strict_ok()
        } else {
            self.parity_1 == Some(true)
        }
    }

    /// The month can be trusted.
    pub open spec fn month_ok(self, strict: bool) -> bool {
        if strict {
            self.strict_ok()
        } else {
            self.parity_2 == Some(true)
        }
    }

    /// The weekday can be trusted.
    pub open spec fn weekday_ok(self, strict: bool) -> bool {
        if strict {
            self.strict_ok()
        } else {
            self.parity_3 == Some(true)
        }
    }

    /// The day can be trusted. No parity bit covers the day alone, and whether it exists
    /// depends on year, month and weekday: all three parities must be right.
    pub open spec fn day_ok(self, strict: bool) -> bool {
        if strict {
            self.strict_ok()
        } else {
            self.parity_1 == Some(true) && self.parity_2 == Some(true) && self.parity_3 == Some(
                true,
            )
        }
    }

    /// Hour and minute can be trusted.
    pub open spec fn time_ok(self, strict: bool) -> bool {
        if strict {
            self.strict_ok()
        } else {
            self.parity_4 == Some(true)
        }
    }

    /// The frame fills a calendar: every field is known, is trusted, and is one that a
    /// calendar with the weekdays `min_weekday..=max_weekday` accepts.
    pub open spec fn fills_calendar(self, strict: bool, min_weekday: u8, max_weekday: u8) -> bool {
        &&& self.year is Some && self.year.unwrap() <= 99 && self.year_ok(strict)
        &&& self.month is Some && 1 <= self.month.unwrap() <= 12 && self.month_ok(strict)
        &&& self.weekday is Some && min_weekday <= self.weekday.unwrap() <= max_weekday
            && self.weekday_ok(strict)
        &&& self.day is Some && 1 <= self.day.unwrap() <= 31 && self.day.unwrap() <= month_length(
            self.year.unwrap(),
            self.month.unwrap(),
            self.weekday.unwrap(),
            self.day.unwrap(),
        ) && self.day_ok(strict)
        &&& self.hour is Some && self.hour.unwrap() <= 23 && self.time_ok(strict)
        &&& self.minute is Some && self.minute.unwrap() <= 59
        &&& self.dst_active is Some && self.dst_announced is Some
    }

    /// The date and time that a frame without an unknown field shows.
    pub open spec fn date(self) -> CalendarDate {
        CalendarDate {
            year: self.year.unwrap(),
            month: self.month.unwrap(),
            day: self.day.unwrap(),
            weekday: self.weekday.unwrap(),
            hour: self.hour.unwrap(),
            minute: self.minute.unwrap(),
        }
    }

    /// The frame is good enough to end the first minute, once the calendar is complete.
    pub open spec fn ends_first_minute(self, strict: bool) -> bool {
        if strict {
            self.strict_ok()
        } else {
            self.dut1 is Some
        }
    }
}

impl CalendarView {
    /// The calendar after it was handed a DST state: unchanged unless both flags are known.
    pub open spec fn with_dst_state(
        self,
        active: Option<bool>,
        announced: Option<bool>,
        check_jump: bool,
    ) -> CalendarView {
        if active is Some && announced is Some {
            self.with_dst(
                dst_after(self, active.unwrap(), announced.unwrap(), check_jump),
                announced.unwrap(),
            )
        } else {
            self
        }
    }

    /// The calendar after date and time of `frame` were handed to it: year, month, weekday,
    /// day, hour and minute, in this order, each with its own mark of trust.
    pub open spec fn with_fields(self, frame: Frame, strict: bool, check_jump: bool)
        -> CalendarView {
        self.with_year(frame.year, frame.year_ok(strict), check_jump).with_month(
            frame.month,
            frame.month_ok(strict),
            check_jump,
        ).with_weekday(frame.weekday, frame.weekday_ok(strict), check_jump).with_day(
            frame.day,
            frame.day_ok(strict),
            check_jump,
        ).with_hour(frame.hour, frame.time_ok(strict), check_jump).with_minute(
            frame.minute,
            frame.time_ok(strict),
            check_jump,
        )
    }

    /// The calendar after all of `frame` was handed to it: date and time, then the DST state.
    pub open spec fn with_frame(self, frame: Frame, strict: bool, check_jump: bool)
        -> CalendarView {
        self.with_fields(frame, strict, check_jump).with_dst_state(
            frame.dst_active,
            frame.dst_announced,
            check_jump,
        )
    }
}

} // verus!
