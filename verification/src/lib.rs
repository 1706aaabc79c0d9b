//! Audio-reactive pointer control engine.
//!
//! Each audio frame yields a loudness value and, when pitch detection
//! succeeds, a detected note. The engine turns that pair, together with the
//! user configuration and the currently pressed modifier keys, into at most
//! one pointer action: a mouse click or a relative pointer move.
//!
//! The engine itself is pure integer logic. Quantities that arrive from the
//! outside world as real numbers are carried in fixed-point form: audio
//! samples in micro-units (one millionth of a sample unit), frequencies in
//! millihertz, and the configured multipliers in thousandths.

pub mod direction;
pub mod engine;
pub mod loudness;
pub mod power;
pub mod types;
