//! Behavior of the oscillator: decoding, clamping, phase accumulation and
//! the piecewise-linear waveform samples.

use dsp_core::oscillator::{
    waveform_from_c, OscillatorState, OscillatorWaveform, Waveform,
};
use dsp_core::MICRO;

#[test]
fn waveform_codes_decode_to_their_shapes() {
    assert_eq!(waveform_from_c(1), Waveform::Saw);
    assert_eq!(waveform_from_c(2), Waveform::Square);
    assert_eq!(waveform_from_c(3), Waveform::Triangle);
}

#[test]
fn out_of_range_waveform_codes_fall_back_to_sine() {
    assert_eq!(waveform_from_c(0), Waveform::Sine);
    assert_eq!(waveform_from_c(4), Waveform::Sine);
    assert_eq!(waveform_from_c(u32::MAX), Waveform::Sine);
}

#[test]
fn oscillator_waveform_names_map_to_the_same_shapes() {
    assert_eq!(OscillatorWaveform::Sine.canonical(), Waveform::Sine);
    assert_eq!(OscillatorWaveform::Sawtooth.canonical(), Waveform::Saw);
    assert_eq!(OscillatorWaveform::Square.canonical(), Waveform::Square);
    assert_eq!(OscillatorWaveform::Triangle.canonical(), Waveform::Triangle);
}

#[test]
fn oscillator_starts_as_a_full_scale_sine_at_440_hz() {
    let o = OscillatorState::new(44_100);
    assert_eq!(o.sample_rate_hz, 44_100);
    assert_eq!(o.frequency_uhz, 440_000_000);
    assert_eq!(o.amplitude_micro, MICRO);
    assert_eq!(o.waveform, Waveform::Sine);
    assert_eq!(o.phase, 0);
}

#[test]
fn oscillator_clamps_frequency_to_its_band() {
    let mut o = OscillatorState::new(44_100);
    o.set_frequency(880_000_000);
    assert_eq!(o.frequency_uhz, 880_000_000);
    o.set_frequency(10_000_000);
    assert_eq!(o.frequency_uhz, 20_000_000);
    o.set_frequency(30_000_000_000);
    assert_eq!(o.frequency_uhz, 20_000_000_000);
}

#[test]
fn oscillator_clamps_amplitude_to_unit_range() {
    let mut o = OscillatorState::new(44_100);
    o.set_amplitude(250_000);
    assert_eq!(o.amplitude_micro, 250_000);
    o.set_amplitude(2_000_000);
    assert_eq!(o.amplitude_micro, MICRO);
    o.set_amplitude(-1);
    assert_eq!(o.amplitude_micro, 0);
}

#[test]
fn phase_advances_by_the_frequency_each_sample() {
    let mut o = OscillatorState::new(44_100);
    o.set_frequency(441_000_000);
    o.advance_phase();
    assert_eq!(o.phase, 441_000_000);
    o.advance_phase();
    assert_eq!(o.phase, 882_000_000);
}

#[test]
fn phase_wraps_at_the_end_of_the_cycle() {
    // One cycle at 44.1 kHz spans 44_100 * MICRO phase units.
    let mut o = OscillatorState::new(44_100);
    o.set_frequency(20_000_000_000);
    o.advance_phase();
    assert_eq!(o.phase, 20_000_000_000);
    o.advance_phase();
    assert_eq!(o.phase, 40_000_000_000);
    o.advance_phase();
    assert_eq!(o.phase, 60_000_000_000 - 44_100_000_000);
}

#[test]
fn sine_at_441_hz_and_44100_hz_repeats_every_100_samples() {
    let mut o = OscillatorState::new(44_100);
    o.set_frequency(441_000_000);
    let mut phases: Vec<i64> = Vec::new();
    for _ in 0..300 {
        phases.push(o.phase);
        o.advance_phase();
    }
    for k in 0..200 {
        assert_eq!(phases[k + 100], phases[k], "phase failed to repeat");
    }
    assert_eq!(o.phase, 0, "300 samples are three whole periods");
}

#[test]
fn test_oscillator_creation() {
    let o = OscillatorState::new(44_100);
    assert_eq!(o.frequency_uhz, 440_000_000);
    assert_eq!(o.waveform, Waveform::Sine);
}

#[test]
fn test_phase_reset() {
    let mut o = OscillatorState::new(44_100);
    for _ in 0..100 {
        o.advance_phase();
    }
    o.reset();
    assert_eq!(o.phase, 0);
}

#[test]
fn reset_zeroes_the_phase_and_keeps_the_settings() {
    let mut o = OscillatorState::new(44_100);
    o.set_frequency(880_000_000);
    o.set_amplitude(250_000);
    o.set_waveform(Waveform::Triangle);
    for _ in 0..7 {
        o.advance_phase();
    }
    assert_ne!(o.phase, 0);
    o.reset();
    assert_eq!(o.phase, 0);
    assert_eq!(o.frequency_uhz, 880_000_000);
    assert_eq!(o.amplitude_micro, 250_000);
    assert_eq!(o.waveform, Waveform::Triangle);
}

#[test]
fn sine_samples_come_from_outside_the_core() {
    let o = OscillatorState::new(44_100);
    assert_eq!(o.sample_micro(), None);
}

#[test]
fn square_is_high_then_low_across_the_cycle() {
    let mut o = OscillatorState::new(1_000);
    o.set_waveform(Waveform::Square);
    o.set_frequency(500_000_000);
    assert_eq!(o.sample_micro(), Some(MICRO));
    o.advance_phase();
    // The second half of the cycle starts exactly at this phase.
    assert_eq!(o.sample_micro(), Some(-MICRO));
}

#[test]
fn saw_ramps_from_minus_one_through_zero() {
    let mut o = OscillatorState::new(1_000);
    o.set_waveform(Waveform::Saw);
    o.set_frequency(500_000_000);
    assert_eq!(o.sample_micro(), Some(-MICRO));
    o.advance_phase();
    assert_eq!(o.sample_micro(), Some(0));
}

#[test]
fn triangle_rises_to_the_peak_and_falls_back() {
    let mut o = OscillatorState::new(1_000);
    o.set_waveform(Waveform::Triangle);
    o.set_frequency(250_000_000);
    assert_eq!(o.sample_micro(), Some(-MICRO));
    o.advance_phase();
    assert_eq!(o.sample_micro(), Some(0));
    o.advance_phase();
    assert_eq!(o.sample_micro(), Some(MICRO));
    o.advance_phase();
    assert_eq!(o.sample_micro(), Some(0));
    o.advance_phase();
    assert_eq!(o.sample_micro(), Some(-MICRO));
}

#[test]
fn every_piecewise_sample_stays_within_full_scale() {
    let shapes = [Waveform::Saw, Waveform::Square, Waveform::Triangle];
    for shape in shapes {
        let mut o = OscillatorState::new(44_100);
        o.set_waveform(shape);
        o.set_frequency(777_000_000);
        for _ in 0..500 {
            let v = o.sample_micro().unwrap();
            assert!(-MICRO <= v && v <= MICRO);
            o.advance_phase();
        }
    }
}
