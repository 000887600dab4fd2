//! The calendar that collects the decoded fields of each minute.
//!
//! The calendar is `radio_datetime_utils::RadioDateTimeUtils`. Its fields are private, so this
//! module gives them a model, `CalendarView`, and states what each method that the decoder calls
//! does to that model. None of these statements is proved here: they are read off the source of
//! `radio_datetime_utils`.

use radio_datetime_utils::RadioDateTimeUtils;
use vstd::prelude::*;

verus! {

/// Bit of the DST mask: a DST change has been announced.
pub const DST_ANNOUNCED: u8 = 1;

/// Bit of the DST mask: the DST state changed unexpectedly.
pub const DST_JUMP: u8 = 4;

/// Bit of the DST mask: DST is active.
pub const DST_SUMMER: u8 = 8;

/// The calendar type of `radio_datetime_utils`, opaque to the verifier.
#[verifier::external_type_specification]
#[verifier::external_body]
pub struct ExRadioDateTimeUtils(RadioDateTimeUtils);

/// The fields of a calendar that the methods called by the decoder read or write.
pub struct CalendarView {
    pub year: Option<u8>,
    pub month: Option<u8>,
    pub day: Option<u8>,
    pub weekday: Option<u8>,
    pub hour: Option<u8>,
    pub minute: Option<u8>,
    /// Mask of the `DST_*` bits.
    pub dst: Option<u8>,
    pub jump_year: bool,
    pub jump_month: bool,
    pub jump_day: bool,
    pub jump_weekday: bool,
    pub jump_hour: bool,
    pub jump_minute: bool,
    /// Smallest weekday number that is accepted.
    pub min_weekday: u8,
    /// Largest weekday number that is accepted.
    pub max_weekday: u8,
    /// Minutes counted since the minute was last 0.
    pub minutes_running: u8,
    /// DST announcements counted since the minute was last 0.
    pub dst_count: u8,
    /// No DST state has been set yet.
    pub first_minute: bool,
}

/// A full date and time of day.
pub struct CalendarDate {
    pub year: u8,
    pub month: u8,
    pub day: u8,
    pub weekday: u8,
    pub hour: u8,
    pub minute: u8,
}

/// The value that a setter stores: `value` if it is present, `terms` holds and it lies in
/// `min..=max`, and the old value otherwise.
pub open spec fn accepted(old_value: Option<u8>, value: Option<u8>, terms: bool, min: u8, max: u8)
    -> Option<u8> {
    if value is Some && terms && min <= value.unwrap() <= max {
        value
    } else {
        old_value
    }
}

/// The jump flag that a setter stores next to `new_value`.
pub open spec fn jumped(old_value: Option<u8>, new_value: Option<u8>, check_jump: bool) -> bool {
    check_jump && new_value is Some && old_value is Some && new_value != old_value
}

/// Whether the year `00` of a century is a leap year, judged from a day of its February and
/// that day's weekday: it is one exactly if February 28 is a Monday.
pub open spec fn is_leap_century(day: u8, weekday: u8) -> bool {
    let wd: int = if weekday == 0 {
        7
    } else {
        weekday as int
    };
    if day < 29 {
        day + 7 * ((28 - day) / 7) + (8 - wd) == 28
    } else {
        wd == 2
    }
}

/// The number of days of `month` in `year`, where `day` and `weekday` tell the leap centuries
/// apart.
pub open spec fn month_length(year: u8, month: u8, weekday: u8, day: u8) -> u8 {
    if month == 2 {
        if (year != 0 && year % 4 == 0) || (year == 0 && is_leap_century(day, weekday)) {
            29
        } else {
            28
        }
    } else if month == 4 || month == 6 || month == 9 || month == 11 {
        30
    } else {
        31
    }
}

impl CalendarView {
    /// A calendar that holds nothing yet, for a station that numbers Sunday as `sunday`: its
    /// weekdays run from 0 if Sunday is 0, else from 1, and up to 7 if Sunday is 7, else up
    /// to 6.
    pub open spec fn empty(sunday: u8) -> CalendarView {
        CalendarView {
            year: None,
            month: None,
            day: None,
            weekday: None,
            hour: None,
            minute: None,
            dst: None,
            jump_year: false,
            jump_month: false,
            jump_day: false,
            jump_weekday: false,
            jump_hour: false,
            jump_minute: false,
            min_weekday: if sunday != 0 {
                1
            } else {
                0
            },
            max_weekday: if sunday == 7 {
                7
            } else {
                6
            },
            minutes_running: 0,
            dst_count: 0,
            first_minute: true,
        }
    }

    /// Date, time and DST state are all present.
    pub open spec fn complete(self) -> bool {
        &&& self.dst is Some
        &&& self.year is Some
        &&& self.month is Some
        &&& self.day is Some
        &&& self.weekday is Some
        &&& self.hour is Some
        &&& self.minute is Some
    }

    /// Adding a minute would take an hour off midnight: the hour is over, a change to winter
    /// time is announced, and the hour is 0.
    pub open spec fn hour_underflows(self) -> bool {
        &&& self.complete()
        &&& self.minute == Some(59u8)
        &&& self.hour == Some(0u8)
        &&& self.dst.unwrap() & DST_ANNOUNCED != 0
        &&& self.dst.unwrap() & DST_SUMMER != 0
    }

    /// The last day of the current month, if year, month and weekday are present and `day` is
    /// a day of some month.
    pub open spec fn last_day(self, day: u8) -> Option<u8> {
        if self.year is None || self.month is None || self.weekday is None || !(1 <= day <= 31) {
            None
        } else {
            Some(month_length(self.year.unwrap(), self.month.unwrap(), self.weekday.unwrap(), day))
        }
    }

    /// The calendar with all jump flags cleared.
    pub open spec fn cleared(self) -> CalendarView {
        CalendarView {
            jump_year: false,
            jump_month: false,
            jump_day: false,
            jump_weekday: false,
            jump_hour: false,
            jump_minute: false,
            dst: match self.dst {
                Some(mask) => Some(mask & !DST_JUMP),
                None => None,
            },
            ..self
        }
    }

    /// The date and time that a complete calendar shows.
    pub open spec fn date(self) -> CalendarDate {
        CalendarDate {
            year: self.year.unwrap(),
            month: self.month.unwrap(),
            day: self.day.unwrap(),
            weekday: self.weekday.unwrap(),
            hour: self.hour.unwrap(),
            minute: self.minute.unwrap(),
        }
    }

    /// The date and time one minute after those of a complete calendar. Before the last
    /// minute of an hour only the minute changes.
    pub open spec fn one_minute_later(self) -> CalendarDate {
        if self.minute.unwrap() < 59 {
            CalendarDate { minute: (self.minute.unwrap() + 1) as u8, ..self.date() }
        } else {
            hour_turned(self)
        }
    }

    /// The calendar showing `date`.
    pub open spec fn at(self, date: CalendarDate) -> CalendarView {
        CalendarView {
            year: Some(date.year),
            month: Some(date.month),
            day: Some(date.day),
            weekday: Some(date.weekday),
            hour: Some(date.hour),
            minute: Some(date.minute),
            ..self
        }
    }

    /// The calendar after it was handed a year: years 0 to 99 are accepted.
    pub open spec fn with_year(self, value: Option<u8>, terms: bool, check_jump: bool)
        -> CalendarView {
        let year = accepted(self.year, value, terms, 0, 99);
        CalendarView { year, jump_year: jumped(self.year, year, check_jump), ..self }
    }

    /// The calendar after it was handed a month: months 1 to 12 are accepted.
    pub open spec fn with_month(self, value: Option<u8>, terms: bool, check_jump: bool)
        -> CalendarView {
        let month = accepted(self.month, value, terms, 1, 12);
        CalendarView { month, jump_month: jumped(self.month, month, check_jump), ..self }
    }

    /// The calendar after it was handed a weekday: the weekdays that the calendar was made
    /// for are accepted.
    pub open spec fn with_weekday(self, value: Option<u8>, terms: bool, check_jump: bool)
        -> CalendarView {
        let weekday = accepted(self.weekday, value, terms, self.min_weekday, self.max_weekday);
        CalendarView { weekday, jump_weekday: jumped(self.weekday, weekday, check_jump), ..self }
    }

    /// The calendar after it was handed a day: a day is accepted only if the last day of the
    /// month is known and the day is not past it.
    pub open spec fn with_day(self, value: Option<u8>, terms: bool, check_jump: bool)
        -> CalendarView {
        let day = match value {
            Some(v) => match self.last_day(v) {
                Some(last) => accepted(self.day, value, terms, 1, last),
                None => self.day,
            },
            None => self.day,
        };
        CalendarView { day, jump_day: jumped(self.day, day, check_jump), ..self }
    }

    /// The calendar after it was handed an hour: hours 0 to 23 are accepted.
    pub open spec fn with_hour(self, value: Option<u8>, terms: bool, check_jump: bool)
        -> CalendarView {
        let hour = accepted(self.hour, value, terms, 0, 23);
        CalendarView { hour, jump_hour: jumped(self.hour, hour, check_jump), ..self }
    }

    /// The calendar after it was handed a minute: minutes 0 to 59 are accepted.
    pub open spec fn with_minute(self, value: Option<u8>, terms: bool, check_jump: bool)
        -> CalendarView {
        let minute = accepted(self.minute, value, terms, 0, 59);
        CalendarView { minute, jump_minute: jumped(self.minute, minute, check_jump), ..self }
    }

    /// The number of DST announcements after one more DST state, announced or not, was
    /// handed in, before the reset at minute 0.
    pub open spec fn announcements(self, announced: bool) -> int {
        self.dst_count + if announced {
            1int
        } else {
            0int
        }
    }

    /// The counters of the calendar can take one more DST state.
    pub open spec fn dst_fits(self, active: Option<bool>, announced: Option<bool>) -> bool {
        active is Some && announced is Some ==> {
            &&& self.announcements(announced.unwrap()) <= u8::MAX
            &&& (self.minute is Some && self.minute.unwrap() > 0 ==> 2 * self.announcements(
                announced.unwrap(),
            ) <= u8::MAX)
        }
    }

    /// The calendar after a DST state was taken in, with `mask` as its new DST mask.
    pub open spec fn with_dst(self, mask: u8, announced: bool) -> CalendarView {
        CalendarView {
            dst: Some(mask),
            dst_count: if self.minute == Some(0u8) {
                0u8
            } else {
                self.announcements(announced) as u8
            },
            first_minute: false,
            ..self
        }
    }

    /// The calendar after one more minute was counted.
    pub open spec fn bumped(self) -> CalendarView {
        CalendarView {
            minutes_running: if self.minute == Some(0u8) {
                0u8
            } else {
                (self.minutes_running + 1) as u8
            },
            ..self
        }
    }
}

/// The model of a calendar: what its private fields hold.
pub uninterp spec fn calendar_view(calendar: RadioDateTimeUtils) -> CalendarView;

/// The date and time one minute after those of a complete calendar that shows the last
/// minute of an hour, as `RadioDateTimeUtils::add_minute` computes them: the hour turns, by
/// two hours or none if a DST change is announced, and with it the day, the month and the
/// year may turn.
pub uninterp spec fn hour_turned(view: CalendarView) -> CalendarDate;

/// The DST mask that `RadioDateTimeUtils::set_dst` stores when it is handed a DST state.
pub uninterp spec fn dst_after(view: CalendarView, active: bool, announced: bool, check_jump: bool)
    -> u8;

/// `RadioDateTimeUtils::new` makes an empty calendar, with no jump flagged and nothing
/// counted, whose range of weekdays follows from the number given for Sunday.
pub assume_specification[ RadioDateTimeUtils::new ](sunday: u8) -> (calendar: RadioDateTimeUtils)
    ensures
        calendar_view(calendar) == CalendarView::empty(sunday),
;

/// `RadioDateTimeUtils::get_hour` returns the hour field.
pub assume_specification[ RadioDateTimeUtils::get_hour ](calendar: &RadioDateTimeUtils) -> (hour:
    Option<u8>)
    ensures
        hour == calendar_view(*calendar).hour,
;

/// `RadioDateTimeUtils::get_minute` returns the minute field.
pub assume_specification[ RadioDateTimeUtils::get_minute ](
    calendar: &RadioDateTimeUtils,
) -> (minute: Option<u8>)
    ensures
        minute == calendar_view(*calendar).minute,
;

/// `RadioDateTimeUtils::get_dst` returns the DST mask.
pub assume_specification[ RadioDateTimeUtils::get_dst ](calendar: &RadioDateTimeUtils) -> (dst:
    Option<u8>)
    ensures
        dst == calendar_view(*calendar).dst,
;

/// `RadioDateTimeUtils::is_valid` tells whether date, time and DST state are all present.
pub assume_specification[ RadioDateTimeUtils::is_valid ](calendar: &RadioDateTimeUtils) -> (valid:
    bool)
    ensures
        valid == calendar_view(*calendar).complete(),
;

/// `RadioDateTimeUtils::clear_jumps` clears the six jump flags and the jump bit of the DST
/// mask.
pub assume_specification[ RadioDateTimeUtils::clear_jumps ](calendar: &mut RadioDateTimeUtils)
    ensures
        calendar_view(*final(calendar)) == calendar_view(*old(calendar)).cleared(),
;

/// `RadioDateTimeUtils::add_minute` does nothing and returns false on an incomplete calendar.
/// On a complete one it replaces date and time by those one minute later and returns true;
/// before the last minute of an hour that changes the minute alone. It subtracts an hour
/// without a check when a change to winter time is due, so the state in which that hour is
/// 0 is left out.
pub assume_specification[ RadioDateTimeUtils::add_minute ](calendar: &mut RadioDateTimeUtils) -> (added:
    bool)
    requires
        !calendar_view(*old(calendar)).hour_underflows(),
    ensures
        added == calendar_view(*old(calendar)).complete(),
        calendar_view(*final(calendar)) == if !added {
            calendar_view(*old(calendar))
        } else if calendar_view(*old(calendar)).minute.unwrap() < 59 {
            calendar_view(*old(calendar)).at(
                CalendarDate {
                    minute: (calendar_view(*old(calendar)).minute.unwrap() + 1) as u8,
                    ..calendar_view(*old(calendar)).date()
                },
            )
        } else {
            calendar_view(*old(calendar)).at(hour_turned(calendar_view(*old(calendar))))
        },
;

/// `RadioDateTimeUtils::set_year` accepts the years 0 to 99.
pub assume_specification[ RadioDateTimeUtils::set_year ](
    calendar: &mut RadioDateTimeUtils,
    value: Option<u8>,
    terms: bool,
    check_jump: bool,
)
    ensures
        calendar_view(*final(calendar)) == calendar_view(*old(calendar)).with_year(
            value,
            terms,
            check_jump,
        ),
;

/// `RadioDateTimeUtils::set_month` accepts the months 1 to 12.
pub assume_specification[ RadioDateTimeUtils::set_month ](
    calendar: &mut RadioDateTimeUtils,
    value: Option<u8>,
    terms: bool,
    check_jump: bool,
)
    ensures
        calendar_view(*final(calendar)) == calendar_view(*old(calendar)).with_month(
            value,
            terms,
            check_jump,
        ),
;

/// `RadioDateTimeUtils::set_weekday` accepts the weekdays that the calendar was made for.
pub assume_specification[ RadioDateTimeUtils::set_weekday ](
    calendar: &mut RadioDateTimeUtils,
    value: Option<u8>,
    terms: bool,
    check_jump: bool,
)
    ensures
        calendar_view(*final(calendar)) == calendar_view(*old(calendar)).with_weekday(
            value,
            terms,
            check_jump,
        ),
;

/// `RadioDateTimeUtils::set_day` accepts the days from 1 to the last day of the month, and
/// none while year, month or weekday is missing.
pub assume_specification[ RadioDateTimeUtils::set_day ](
    calendar: &mut RadioDateTimeUtils,
    value: Option<u8>,
    terms: bool,
    check_jump: bool,
)
    ensures
        calendar_view(*final(calendar)) == calendar_view(*old(calendar)).with_day(
            value,
            terms,
            check_jump,
        ),
;

/// `RadioDateTimeUtils::set_hour` accepts the hours 0 to 23.
pub assume_specification[ RadioDateTimeUtils::set_hour ](
    calendar: &mut RadioDateTimeUtils,
    value: Option<u8>,
    terms: bool,
    check_jump: bool,
)
    ensures
        calendar_view(*final(calendar)) == calendar_view(*old(calendar)).with_hour(
            value,
            terms,
            check_jump,
        ),
;

/// `RadioDateTimeUtils::set_minute` accepts the minutes 0 to 59.
pub assume_specification[ RadioDateTimeUtils::set_minute ](
    calendar: &mut RadioDateTimeUtils,
    value: Option<u8>,
    terms: bool,
    check_jump: bool,
)
    ensures
        calendar_view(*final(calendar)) == calendar_view(*old(calendar)).with_minute(
            value,
            terms,
            check_jump,
        ),
;

/// `RadioDateTimeUtils::set_dst` does nothing unless both flags are present. Else it stores a
/// new DST mask, counts the announcement, starts counting anew at minute 0, and notes that a
/// DST state has been set. It counts in a `u8` and doubles the count when the minute is past
/// 0, so the states in which either overflows are left out.
pub assume_specification[ RadioDateTimeUtils::set_dst ](
    calendar: &mut RadioDateTimeUtils,
    value: Option<bool>,
    announce: Option<bool>,
    check_jump: bool,
)
    requires
        calendar_view(*old(calendar)).dst_fits(value, announce),
    ensures
        calendar_view(*final(calendar)) == if value is Some && announce is Some {
            calendar_view(*old(calendar)).with_dst(
                dst_after(
                    calendar_view(*old(calendar)),
                    value.unwrap(),
                    announce.unwrap(),
                    check_jump,
                ),
                announce.unwrap(),
            )
        } else {
            calendar_view(*old(calendar))
        },
;

/// `RadioDateTimeUtils::bump_minutes_running` counts one more minute, in a `u8`, and starts
/// anew when the minute is 0.
pub assume_specification[ RadioDateTimeUtils::bump_minutes_running ](
    calendar: &mut RadioDateTimeUtils,
)
    requires
        calendar_view(*old(calendar)).minutes_running < u8::MAX,
    ensures
        calendar_view(*final(calendar)) == calendar_view(*old(calendar)).bumped(),
;

} // verus!
