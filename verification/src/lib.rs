//! A real-time pitch-shifting core: a linear-interpolation resampler over
//! fixed-point samples, a single-slot shared frame buffer bridging the
//! capture and playback callbacks, and a preset-driven pitch control.
//!
//! Samples are signed fixed-point values (`i32`) and the pitch factor is a
//! positive count of tenths, so the sample-rate-changing index arithmetic is
//! exact.  The surrounding program converts device samples at its edge,
//! keeps the shared state behind mutual-exclusion locks, and feeds decoded
//! command lines to the control.

pub mod control;
pub mod frame;
pub mod playback;
pub mod resampler;
