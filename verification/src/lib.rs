//! Wake/sleep scheduling for an embedded e-ink display controller.
//!
//! The crate decides when the controlling loop wakes up: on an interval
//! tick from a timer backend, or on a filtered key press from an input
//! device.  It also drives the optional suspend-to-RAM policy and the
//! real-time-clock wake alarm that survives suspend.

pub mod bitset;
pub mod cal;
pub mod duration;
pub mod evdev;
pub mod fb;
pub mod keycode;
pub mod opts;
pub mod rendering;
pub mod rtc;
pub mod sleep;
pub mod sys;
pub mod text;
pub mod timer;
