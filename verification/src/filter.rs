//! Control-rate parameter state of the smoothed low-pass filter.
//!
//! The filter proper runs a biquad difference equation on floating-point
//! samples outside the verified core; everything it decides at control
//! rate is decided here.  `FilterParams` owns the target and current
//! cutoff frequency and resonance in fixed point, clamps every write to
//! its valid range, eases the current values toward their targets once per
//! processed block, and reports whether they have drifted far enough from
//! the targets that the biquad coefficients are worth recomputing.

use vstd::prelude::*;
use crate::smoother::{dist, smooth_step, smooth_step_spec};
use crate::util::{clamp_i64, clamp_spec};

verus! {

/// Lowest accepted sample rate, in hertz: below this the highest valid
/// cutoff (45% of the sample rate) would fall under the lowest (20 Hz).
pub const MIN_SAMPLE_RATE_HZ: i64 = 45;

/// Highest accepted sample rate, in hertz, chosen so that every
/// fixed-point product in the smoother stays within `i64`.
pub const MAX_SAMPLE_RATE_HZ: i64 = 1_000_000;

/// Lowest cutoff frequency, in microhertz (20 Hz).
pub const FREQ_FLOOR_UHZ: i64 = 20_000_000;

/// Microhertz of cutoff ceiling per hertz of sample rate: the cutoff may
/// reach 45% of the sample rate.
pub const FREQ_CEILING_PER_HZ: i64 = 450_000;

/// Highest resonance, in micro-units (0.99).
pub const RES_CEILING_MICRO: i64 = 990_000;

/// Highest smoothing rate, in micro-units (0.1).
pub const SMOOTHING_CEILING_MICRO: i64 = 100_000;

/// Cutoff drift from its target, in microhertz, beyond which the biquad
/// coefficients should be recomputed (1 Hz).
pub const FREQ_REFRESH_EPS_UHZ: i64 = 1_000_000;

/// Resonance drift from its target, in micro-units, beyond which the
/// biquad coefficients should be recomputed (0.001).
pub const RES_REFRESH_EPS_MICRO: i64 = 1_000;

/// Cutoff frequency a new filter starts at, in microhertz (1 kHz).
pub const DEFAULT_FREQ_UHZ: i64 = 1_000_000_000;

/// Resonance a new filter starts at, in micro-units (0.5).
pub const DEFAULT_RES_MICRO: i64 = 500_000;

/// Smoothing rate a new filter starts at, in micro-units (0.001).
pub const DEFAULT_SMOOTHING_MICRO: i64 = 1_000;

/// Control-rate parameter state of the filter: current and target cutoff
/// and resonance, and the smoothing rate that eases one toward the other.
pub struct FilterParams {
    /// Sample rate, in hertz; fixed at construction.
    pub sample_rate_hz: i64,
    /// Smoothed cutoff frequency, in microhertz.
    pub frequency_uhz: i64,
    /// Smoothed resonance, in micro-units.
    pub resonance_micro: i64,
    /// Cutoff frequency the smoother is heading for, in microhertz.
    pub target_frequency_uhz: i64,
    /// Resonance the smoother is heading for, in micro-units.
    pub target_resonance_micro: i64,
    /// Fraction of the remaining distance covered per block, in
    /// micro-units.
    pub smoothing_micro: i64,
}

impl FilterParams {
    /// Highest valid cutoff frequency at this sample rate, in microhertz.
    pub open spec fn freq_ceiling_uhz(&self) -> int {
        FREQ_CEILING_PER_HZ * self.sample_rate_hz
    }

    /// Every field sits in its valid range.
    pub open spec fn wf(&self) -> bool {
        &&& MIN_SAMPLE_RATE_HZ <= self.sample_rate_hz <= MAX_SAMPLE_RATE_HZ
        &&& FREQ_FLOOR_UHZ <= self.frequency_uhz <= self.freq_ceiling_uhz()
        &&& FREQ_FLOOR_UHZ <= self.target_frequency_uhz <= self.freq_ceiling_uhz()
        &&& 0 <= self.resonance_micro <= RES_CEILING_MICRO
        &&& 0 <= self.target_resonance_micro <= RES_CEILING_MICRO
        &&& 0 <= self.smoothing_micro <= SMOOTHING_CEILING_MICRO
    }

    /// A new filter parameter block: cutoff at 1 kHz (clamped into the
    /// band the sample rate allows), resonance at 0.5, gentle smoothing,
    /// and both smoothed values already at their targets.
    pub fn new(sample_rate_hz: i64) -> (r: FilterParams)
        requires
            MIN_SAMPLE_RATE_HZ <= sample_rate_hz <= MAX_SAMPLE_RATE_HZ,
        ensures
            r.wf(),
            r.sample_rate_hz == sample_rate_hz,
            r.frequency_uhz == clamp_spec(
                DEFAULT_FREQ_UHZ as int,
                FREQ_FLOOR_UHZ as int,
                r.freq_ceiling_uhz(),
            ),
            r.target_frequency_uhz == r.frequency_uhz,
            r.resonance_micro == DEFAULT_RES_MICRO,
            r.target_resonance_micro == DEFAULT_RES_MICRO,
            r.smoothing_micro == DEFAULT_SMOOTHING_MICRO,
    {
        let ceiling: i64 = FREQ_CEILING_PER_HZ * sample_rate_hz;
        let frequency: i64 = clamp_i64(DEFAULT_FREQ_UHZ, FREQ_FLOOR_UHZ, ceiling);
        FilterParams {
            sample_rate_hz,
            frequency_uhz: frequency,
            resonance_micro: DEFAULT_RES_MICRO,
            target_frequency_uhz: frequency,
            target_resonance_micro: DEFAULT_RES_MICRO,
            smoothing_micro: DEFAULT_SMOOTHING_MICRO,
        }
    }

    /// Set the target cutoff frequency, clamped to the band from 20 Hz to
    /// 45% of the sample rate.  The smoothed value is untouched; it eases
    /// over on subsequent blocks.
    pub fn set_frequency(&mut self, freq_uhz: i64)
        requires
            old(self).wf(),
        ensures
            final(self).wf(),
            final(self).target_frequency_uhz == clamp_spec(
                freq_uhz as int,
                FREQ_FLOOR_UHZ as int,
                old(self).freq_ceiling_uhz(),
            ),
            final(self).sample_rate_hz == old(self).sample_rate_hz,
            final(self).frequency_uhz == old(self).frequency_uhz,
            final(self).resonance_micro == old(self).resonance_micro,
            final(self).target_resonance_micro == old(self).target_resonance_micro,
            final(self).smoothing_micro == old(self).smoothing_micro,
    {
        let ceiling: i64 = FREQ_CEILING_PER_HZ * self.sample_rate_hz;
        self.target_frequency_uhz = clamp_i64(freq_uhz, FREQ_FLOOR_UHZ, ceiling);
    }

    /// Set the target resonance, clamped to `[0, 0.99]`.
    pub fn set_resonance(&mut self, res_micro: i64)
        requires
            old(self).wf(),
        ensures
            final(self).wf(),
            final(self).target_resonance_micro == clamp_spec(
                res_micro as int,
                0,
                RES_CEILING_MICRO as int,
            ),
            final(self).sample_rate_hz == old(self).sample_rate_hz,
            final(self).frequency_uhz == old(self).frequency_uhz,
            final(self).resonance_micro == old(self).resonance_micro,
            final(self).target_frequency_uhz == old(self).target_frequency_uhz,
            final(self).smoothing_micro == old(self).smoothing_micro,
    {
        self.target_resonance_micro = clamp_i64(res_micro, 0, RES_CEILING_MICRO);
    }

    /// Set the smoothing rate, clamped to `[0, 0.1]`.
    pub fn set_smoothing(&mut self, rate_micro: i64)
        requires
            old(self).wf(),
        ensures
            final(self).wf(),
            final(self).smoothing_micro == clamp_spec(
                rate_micro as int,
                0,
                SMOOTHING_CEILING_MICRO as int,
            ),
            final(self).sample_rate_hz == old(self).sample_rate_hz,
            final(self).frequency_uhz == old(self).frequency_uhz,
            final(self).resonance_micro == old(self).resonance_micro,
            final(self).target_frequency_uhz == old(self).target_frequency_uhz,
            final(self).target_resonance_micro == old(self).target_resonance_micro,
    {
        self.smoothing_micro = clamp_i64(rate_micro, 0, SMOOTHING_CEILING_MICRO);
    }

    /// Advance both smoothers one step toward their targets, as the filter
    /// does once per processed block, and report whether the smoothed
    /// values have drifted from their targets beyond the refresh
    /// thresholds — the cue to recompute the biquad coefficients.
    pub fn advance(&mut self) -> (needs_refresh: bool)
        requires
            old(self).wf(),
        ensures
            final(self).wf(),
            final(self).frequency_uhz == smooth_step_spec(
                old(self).frequency_uhz as int,
                old(self).target_frequency_uhz as int,
                old(self).smoothing_micro as int,
            ),
            final(self).resonance_micro == smooth_step_spec(
                old(self).resonance_micro as int,
                old(self).target_resonance_micro as int,
                old(self).smoothing_micro as int,
            ),
            final(self).sample_rate_hz == old(self).sample_rate_hz,
            final(self).target_frequency_uhz == old(self).target_frequency_uhz,
            final(self).target_resonance_micro == old(self).target_resonance_micro,
            final(self).smoothing_micro == old(self).smoothing_micro,
            needs_refresh == (dist(
                final(self).frequency_uhz as int,
                final(self).target_frequency_uhz as int,
            ) > FREQ_REFRESH_EPS_UHZ || dist(
                final(self).resonance_micro as int,
                final(self).target_resonance_micro as int,
            ) > RES_REFRESH_EPS_MICRO),
    {
        self.frequency_uhz = smooth_step(
            self.frequency_uhz,
            self.target_frequency_uhz,
            self.smoothing_micro,
        );
        self.resonance_micro = smooth_step(
            self.resonance_micro,
            self.target_resonance_micro,
            self.smoothing_micro,
        );
        let freq_drift: i64 = if self.frequency_uhz <= self.target_frequency_uhz {
            self.target_frequency_uhz - self.frequency_uhz
        } else {
            self.frequency_uhz - self.target_frequency_uhz
        };
        let res_drift: i64 = if self.resonance_micro <= self.target_resonance_micro {
            self.target_resonance_micro - self.resonance_micro
        } else {
            self.resonance_micro - self.target_resonance_micro
        };
        freq_drift > FREQ_REFRESH_EPS_UHZ || res_drift > RES_REFRESH_EPS_MICRO
    }
}

} // verus!
