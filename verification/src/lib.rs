//! Decoder for the MSF time signal.
//!
//! MSF sends one bit pair (A, B) each second by switching its carrier off for 100 to 300 ms,
//! and marks the begin of each minute by switching it off for 500 ms. The A bits of a minute
//! hold the date and the time of day in binary-coded decimal and end in the marker
//! `01111110`; the B bits hold DUT1 in unary, four parity bits and the state of summer time.
//!
//! A receiver owns one [`MSFUtils`] and hands it every edge of the demodulated signal:
//!
//! 1. [`MSFUtils::handle_new_edge`] measures the interval that the edge ends and stores the
//!    bit pair of the current second, or marks it as unknown. Spikes are absorbed.
//! 2. When a new second has started, [`MSFUtils::decode_time`] decodes the minute if the
//!    second that has ended was its last one, and hands the fields to a calendar of
//!    `radio_datetime_utils`, which is moved on by a minute for each minute decoded.
//! 3. [`MSFUtils::increase_second`] then moves the second counter on.
//!
//! A bit that was not received well is unknown, and so is all that is read from it: an
//! unknown field never reaches the calendar.
//!
//! All of this is verified but the calendar itself and a few helpers of
//! `radio_datetime_utils`, whose behaviour is stated in [`calendar`], [`bit_fields`] and
//! [`timing`] and taken on trust. What holds of the decoder on every input is proved in
//! [`laws`].

pub mod bit_fields;
pub mod calendar;
pub mod decoder;
pub mod frame;
pub mod laws;
pub mod msf_helpers;
pub mod timing;

pub use decoder::MSFUtils;
