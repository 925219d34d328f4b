//! Multi-waveform periodic oscillator: phase accumulation, parameter
//! clamping, and the piecewise-linear waveform shapes, all on exact
//! fixed-point integers.
//!
//! Phase is kept in microhertz-samples: one full cycle spans
//! `sample_rate_hz * MICRO` units, and each sample advances the phase by
//! the frequency in microhertz, so the normalized phase moves by
//! `frequency / sample_rate` per sample, wrapping at one cycle.  The sine
//! shape is transcendental and is evaluated outside the verified core from
//! the phase this type maintains; the other three shapes are exact
//! piecewise-linear functions of the phase and are computed here.

use vstd::prelude::*;
use vstd::arithmetic::div_mod::{
    lemma_div_pos_is_pos, lemma_fundamental_div_mod, lemma_mod_division_less_than_divisor,
    lemma_mod_multiples_vanish,
};
use vstd::arithmetic::mul::lemma_mul_is_distributive_add_other_way;
use crate::MICRO;
use crate::util::{clamp_i64, clamp_spec};

verus! {

/// Waveform shapes the oscillator can generate.
#[derive(Debug, Clone, Copy, PartialEq, Eq, Structural)]
pub enum Waveform {
    /// Sine wave.
    Sine,
    /// Sawtooth wave: a ramp from -1 at the start of the cycle to +1 at
    /// its end.
    Saw,
    /// Square wave: +1 over the first half of the cycle, -1 over the
    /// second.
    Square,
    /// Triangle wave: a rise from -1 to +1 over the first half of the
    /// cycle, and a fall back over the second.
    Triangle,
}

/// The waveform names used by the simpler oscillator front-end; `Sawtooth`
/// is the same shape `Waveform` calls `Saw`.
#[derive(Debug, Clone, Copy, PartialEq, Eq, Structural)]
pub enum OscillatorWaveform {
    /// Sine wave.
    Sine,
    /// Sawtooth wave.
    Sawtooth,
    /// Square wave.
    Square,
    /// Triangle wave.
    Triangle,
}

impl OscillatorWaveform {
    /// The same shape under the canonical `Waveform` name.
    pub fn canonical(self) -> (w: Waveform)
        ensures
            self is Sine ==> w is Sine,
            self is Sawtooth ==> w is Saw,
            self is Square ==> w is Square,
            self is Triangle ==> w is Triangle,
    {
        match self {
            OscillatorWaveform::Sine => Waveform::Sine,
            OscillatorWaveform::Sawtooth => Waveform::Saw,
            OscillatorWaveform::Square => Waveform::Square,
            OscillatorWaveform::Triangle => Waveform::Triangle,
        }
    }
}

/// Decode a waveform selector arriving over a host boundary as a small
/// integer code; any out-of-range code falls back to sine.
pub fn waveform_from_c(value: u32) -> (w: Waveform)
    ensures
        value == 1 ==> w is Saw,
        value == 2 ==> w is Square,
        value == 3 ==> w is Triangle,
        value == 0 || value > 3 ==> w is Sine,
{
    match value {
        1 => Waveform::Saw,
        2 => Waveform::Square,
        3 => Waveform::Triangle,
        _ => Waveform::Sine,
    }
}

/// Lowest accepted sample rate, in hertz.
pub const OSC_MIN_SAMPLE_RATE_HZ: i64 = 1;

/// Highest accepted sample rate, in hertz, chosen so that a full phase
/// cycle in microhertz-samples stays well within `i64`.
pub const OSC_MAX_SAMPLE_RATE_HZ: i64 = 1_000_000;

/// Lowest oscillator frequency, in microhertz (20 Hz).
pub const OSC_FREQ_FLOOR_UHZ: i64 = 20_000_000;

/// Highest oscillator frequency, in microhertz (20 kHz).
pub const OSC_FREQ_CEILING_UHZ: i64 = 20_000_000_000;

/// Frequency a new oscillator starts at, in microhertz (440 Hz).
pub const OSC_DEFAULT_FREQ_UHZ: i64 = 440_000_000;

/// The phase reached from `start` after `n` advances of `increment`
/// units, around a cycle of `cycle` units.
pub open spec fn phase_at(start: int, increment: int, cycle: int, n: nat) -> int {
    (start + n * increment) % cycle
}

/// Periodicity of the phase accumulator: whenever `n` advances add up to a
/// whole number of cycles, the phase sequence repeats with period `n`.
pub proof fn lemma_phase_periodic(start: int, increment: int, cycle: int, n: nat, k: nat)
    requires
        cycle > 0,
        (n * increment) % cycle == 0,
    ensures
        phase_at(start, increment, cycle, (k + n) as nat) == phase_at(start, increment, cycle, k),
{
    let turns = (n * increment) / cycle;
    lemma_fundamental_div_mod(n * increment, cycle);
    assert(n * increment == cycle * turns);
    lemma_mul_is_distributive_add_other_way(increment, k as int, n as int);
    assert((k + n) * increment == k * increment + n * increment);
    lemma_mod_multiples_vanish(turns, start + k * increment, cycle);
    assert(cycle * turns + (start + k * increment) == start + (k + n) * increment);
}

/// The sample a square wave takes at a given phase, in micro-units:
/// +1 over the first half of the cycle, -1 over the second.
pub open spec fn square_sample_spec(phase: int, cycle: int) -> int {
    if 2 * phase < cycle {
        MICRO as int
    } else {
        -(MICRO as int)
    }
}

/// The sample a sawtooth takes at a given phase, in micro-units: a ramp
/// from -1 at phase zero toward +1 at the end of the cycle.
pub open spec fn saw_sample_spec(phase: int, cycle: int) -> int {
    (2 * (MICRO as int) * phase) / cycle - (MICRO as int)
}

/// The sample a triangle wave takes at a given phase, in micro-units: a
/// rise from -1 to +1 over the first half of the cycle and a fall back
/// over the second.
pub open spec fn triangle_sample_spec(phase: int, cycle: int) -> int {
    if 2 * phase < cycle {
        (4 * (MICRO as int) * phase) / cycle - (MICRO as int)
    } else {
        3 * (MICRO as int) - (4 * (MICRO as int) * phase) / cycle
    }
}

/// A quotient of a product bounded by a multiple of the divisor: if
/// `0 <= a < bound * c` then `0 <= a / c < bound`.
proof fn lemma_div_below(a: int, c: int, bound: int)
    requires
        c > 0,
        0 <= a,
        a < bound * c,
    ensures
        0 <= a / c < bound,
{
    lemma_div_pos_is_pos(a, c);
    lemma_fundamental_div_mod(a, c);
    assert(a / c < bound) by (nonlinear_arith)
        requires
            c * (a / c) <= a,
            a < bound * c,
            c > 0,
    ;
}

/// A quotient of a product at or above a multiple of the divisor: if
/// `a >= bound * c` then `a / c >= bound`.
proof fn lemma_div_at_least(a: int, c: int, bound: int)
    requires
        c > 0,
        bound * c <= a,
    ensures
        bound <= a / c,
{
    lemma_fundamental_div_mod(a, c);
    assert(bound <= a / c) by (nonlinear_arith)
        requires
            a == c * (a / c) + a % c,
            a % c < c,
            bound * c <= a,
            c > 0,
    ;
}

/// Phase-accurate periodic oscillator state: sample rate, clamped
/// frequency and amplitude, the selected waveform, and the phase
/// accumulator that wraps once per cycle.
pub struct OscillatorState {
    /// Sample rate, in hertz; fixed at construction.
    pub sample_rate_hz: i64,
    /// Frequency, in microhertz.  This is also the phase increment: the
    /// phase advances by this many microhertz-samples per sample.
    pub frequency_uhz: i64,
    /// Amplitude, in micro-units of full scale.
    pub amplitude_micro: i64,
    /// The waveform being generated.
    pub waveform: Waveform,
    /// Phase, in microhertz-samples within `[0, cycle())`.
    pub phase: i64,
}

impl OscillatorState {
    /// How many phase units make one full cycle at this sample rate.
    pub open spec fn cycle(&self) -> int {
        (self.sample_rate_hz as int) * (MICRO as int)
    }

    /// Every field sits in its valid range.
    pub open spec fn wf(&self) -> bool {
        &&& OSC_MIN_SAMPLE_RATE_HZ <= self.sample_rate_hz <= OSC_MAX_SAMPLE_RATE_HZ
        &&& OSC_FREQ_FLOOR_UHZ <= self.frequency_uhz <= OSC_FREQ_CEILING_UHZ
        &&& 0 <= self.amplitude_micro <= MICRO
        &&& 0 <= self.phase < self.cycle()
    }

    /// A new oscillator: 440 Hz sine at full amplitude, phase at zero.
    pub fn new(sample_rate_hz: i64) -> (r: OscillatorState)
        requires
            OSC_MIN_SAMPLE_RATE_HZ <= sample_rate_hz <= OSC_MAX_SAMPLE_RATE_HZ,
        ensures
            r.wf(),
            r.sample_rate_hz == sample_rate_hz,
            r.frequency_uhz == OSC_DEFAULT_FREQ_UHZ,
            r.amplitude_micro == MICRO,
            r.waveform is Sine,
            r.phase == 0,
    {
        OscillatorState {
            sample_rate_hz,
            frequency_uhz: OSC_DEFAULT_FREQ_UHZ,
            amplitude_micro: MICRO,
            waveform: Waveform::Sine,
            phase: 0,
        }
    }

    /// Set the frequency, clamped to the band from 20 Hz to 20 kHz.  The
    /// phase increment is the frequency itself, so it needs no separate
    /// recomputation.
    pub fn set_frequency(&mut self, freq_uhz: i64)
        requires
            old(self).wf(),
        ensures
            final(self).wf(),
            final(self).frequency_uhz == clamp_spec(
                freq_uhz as int,
                OSC_FREQ_FLOOR_UHZ as int,
                OSC_FREQ_CEILING_UHZ as int,
            ),
            final(self).sample_rate_hz == old(self).sample_rate_hz,
            final(self).amplitude_micro == old(self).amplitude_micro,
            final(self).waveform == old(self).waveform,
            final(self).phase == old(self).phase,
    {
        self.frequency_uhz = clamp_i64(freq_uhz, OSC_FREQ_FLOOR_UHZ, OSC_FREQ_CEILING_UHZ);
    }

    /// Set the amplitude, clamped to `[0, 1]`.
    pub fn set_amplitude(&mut self, amp_micro: i64)
        requires
            old(self).wf(),
        ensures
            final(self).wf(),
            final(self).amplitude_micro == clamp_spec(amp_micro as int, 0, MICRO as int),
            final(self).sample_rate_hz == old(self).sample_rate_hz,
            final(self).frequency_uhz == old(self).frequency_uhz,
            final(self).waveform == old(self).waveform,
            final(self).phase == old(self).phase,
    {
        self.amplitude_micro = clamp_i64(amp_micro, 0, MICRO);
    }

    /// Select the waveform.  The switch is instantaneous by design: no
    /// smoothing softens it, so switching mid-buffer steps the output.
    pub fn set_waveform(&mut self, waveform: Waveform)
        requires
            old(self).wf(),
        ensures
            final(self).wf(),
            final(self).waveform == waveform,
            final(self).sample_rate_hz == old(self).sample_rate_hz,
            final(self).frequency_uhz == old(self).frequency_uhz,
            final(self).amplitude_micro == old(self).amplitude_micro,
            final(self).phase == old(self).phase,
    {
        self.waveform = waveform;
    }

    /// Advance the phase by one sample, wrapping at the end of the cycle.
    pub fn advance_phase(&mut self)
        requires
            old(self).wf(),
        ensures
            final(self).wf(),
            final(self).phase == (old(self).phase + old(self).frequency_uhz) % old(self).cycle(),
            final(self).phase == phase_at(
                old(self).phase as int,
                old(self).frequency_uhz as int,
                old(self).cycle(),
                1,
            ),
            final(self).sample_rate_hz == old(self).sample_rate_hz,
            final(self).frequency_uhz == old(self).frequency_uhz,
            final(self).amplitude_micro == old(self).amplitude_micro,
            final(self).waveform == old(self).waveform,
    {
        let cycle: i64 = self.sample_rate_hz * MICRO;
        self.phase = (self.phase + self.frequency_uhz) % cycle;
        proof {
            lemma_mod_division_less_than_divisor(
                old(self).phase + old(self).frequency_uhz,
                cycle as int,
            );
            assert(1 * old(self).frequency_uhz == old(self).frequency_uhz);
        }
    }

    /// The sample the current waveform takes at the current phase, in
    /// micro-units of full scale, before the amplitude is applied; `None`
    /// for the sine shape, which is not piecewise linear and is evaluated
    /// outside the verified core from this state's phase.  Every returned
    /// sample lies within one unit of full scale either way.
    pub fn sample_micro(&self) -> (r: Option<i64>)
        requires
            self.wf(),
        ensures
            r is None <==> self.waveform is Sine,
            self.waveform is Saw ==> r == Some(
                saw_sample_spec(self.phase as int, self.cycle()) as i64,
            ),
            self.waveform is Square ==> r == Some(
                square_sample_spec(self.phase as int, self.cycle()) as i64,
            ),
            self.waveform is Triangle ==> r == Some(
                triangle_sample_spec(self.phase as int, self.cycle()) as i64,
            ),
            r matches Some(v) ==> -MICRO <= v <= MICRO,
    {
        let cycle: i64 = self.sample_rate_hz * MICRO;
        match self.waveform {
            Waveform::Sine => None,
            Waveform::Saw => {
                let q: i64 = 2 * MICRO * self.phase / cycle;
                proof {
                    lemma_div_below(2 * (MICRO as int) * self.phase, cycle as int, 2 * MICRO);
                }
                Some(q - MICRO)
            },
            Waveform::Square => {
                if 2 * self.phase < cycle {
                    Some(MICRO)
                } else {
                    Some(-MICRO)
                }
            },
            Waveform::Triangle => {
                let q: i64 = 4 * MICRO * self.phase / cycle;
                proof {
                    lemma_div_below(4 * (MICRO as int) * self.phase, cycle as int, 4 * MICRO);
                }
                if 2 * self.phase < cycle {
                    proof {
                        lemma_div_below(
                            4 * (MICRO as int) * self.phase,
                            cycle as int,
                            2 * MICRO,
                        );
                    }
                    Some(q - MICRO)
                } else {
                    proof {
                        lemma_div_at_least(
                            4 * (MICRO as int) * self.phase,
                            cycle as int,
                            2 * MICRO,
                        );
                    }
                    Some(3 * MICRO - q)
                }
            },
        }
    }

    /// Periodicity of the generated signal: whenever `n` samples advance
    /// this oscillator's phase by a whole number of cycles — as 100
    /// samples do at 441 Hz and a 44.1 kHz sample rate — the phase
    /// trajectory from the current state, and with it every waveform's
    /// sample sequence, repeats with period `n`.
    pub proof fn lemma_periodic(self, n: nat, k: nat)
        requires
            self.wf(),
            (n * self.frequency_uhz) % self.cycle() == 0,
        ensures
            phase_at(self.phase as int, self.frequency_uhz as int, self.cycle(), (k + n) as nat)
                == phase_at(self.phase as int, self.frequency_uhz as int, self.cycle(), k),
    {
        lemma_phase_periodic(self.phase as int, self.frequency_uhz as int, self.cycle(), n, k);
    }

    /// Zero the phase; frequency, amplitude and waveform persist.
    pub fn reset(&mut self)
        requires
            old(self).wf(),
        ensures
            final(self).wf(),
            final(self).phase == 0,
            final(self).sample_rate_hz == old(self).sample_rate_hz,
            final(self).frequency_uhz == old(self).frequency_uhz,
            final(self).amplitude_micro == old(self).amplitude_micro,
            final(self).waveform == old(self).waveform,
    {
        self.phase = 0;
    }
}

} // verus!
