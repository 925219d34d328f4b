//! Verified control core of a per-sample digital signal chain.
//!
//! The chain pairs a smoothed second-order low-pass filter with a
//! multi-waveform periodic oscillator.  Everything the chain decides at
//! control rate — clamping parameters on write, easing the current value
//! toward its target, gating coefficient recomputation behind a hysteresis
//! threshold, accumulating and wrapping oscillator phase, and shaping the
//! piecewise-linear waveforms — is carried out here on exact fixed-point
//! integers and verified.  The audio-rate floating-point arithmetic (the
//! biquad difference equation and the sine evaluation) lives outside the
//! verified core and reads its parameters from these types.
//!
//! Fixed-point conventions, shared by every module:
//! - frequencies are microhertz (`1_000_000` per hertz);
//! - resonance, amplitude and smoothing rates are micro-units
//!   (`1_000_000` represents `1.0`);
//! - oscillator phase is measured in microhertz-samples, so one full cycle
//!   spans `sample_rate * 1_000_000` units.

use vstd::prelude::*;

pub mod filter;
pub mod oscillator;
pub mod smoother;
pub mod util;

pub use filter::FilterParams;
pub use oscillator::{waveform_from_c, OscillatorState, OscillatorWaveform, Waveform};

verus! {

/// Fixed-point scale: the integer that stands for `1.0`.
pub const MICRO: i64 = 1_000_000;

} // verus!
