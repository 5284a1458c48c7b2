use wavetable_synth::control::FrequencyControl;
use wavetable_synth::oscillator::{WaveTableOscillator, FRAC};
use wavetable_synth::wavetable::{sine_wave_table, AMP};

/// The attenuated amplitude bound: 3/10 of `AMP`, rounded down.
const MAX_SAMPLE: i64 = 3 * AMP / 10;

/// The fixed-point cursor increment for 440 Hz at 44100 samples/s with a
/// 64-entry table: floor(440000 * 64 * FRAC / 44100000).
const INC_440: u64 = 2742546010;

/// The same for 880 Hz.
const INC_880: u64 = 5485092020;

#[test]
fn controller_starts_silent() {
    let c = FrequencyControl::new();
    assert_eq!(c.get(), 0);
}

#[test]
fn controller_set_get_roundtrip() {
    let mut c = FrequencyControl::new();
    c.set(440000);
    assert_eq!(c.get(), 440000);
    c.set(7);
    assert_eq!(c.get(), 7);
}

#[test]
fn new_oscillator_is_silent_at_start() {
    let o = WaveTableOscillator::new(44100, sine_wave_table(64));
    assert_eq!(o.get_frequency(), 0);
    assert_eq!(o.sample_rate(), 44100);
    assert_eq!(o.index, 0);
}

#[test]
fn silence_invariant() {
    // Frequency 0: every sample is exactly 0 and the cursor never moves.
    let mut o = WaveTableOscillator::new(44100, sine_wave_table(64));
    for _ in 0..100 {
        assert_eq!(o.get_sample(), 0);
        assert_eq!(o.index, 0);
    }
}

#[test]
fn silence_returns_after_note_off() {
    let mut o = WaveTableOscillator::new(44100, sine_wave_table(64));
    o.set_frequency(440000);
    for _ in 0..10 {
        o.get_sample();
    }
    let parked = o.index;
    assert_ne!(parked, 0);
    o.set_frequency(0);
    for _ in 0..10 {
        assert_eq!(o.get_sample(), 0);
        assert_eq!(o.index, parked);
    }
}

#[test]
fn set_then_sample_observes_new_frequency() {
    // The very next sample after a store uses the stored frequency: the
    // cursor advances by the 440 Hz increment, not by the stale silent
    // increment cached at construction.
    let mut o = WaveTableOscillator::new(44100, sine_wave_table(64));
    o.set_frequency(440000);
    o.get_sample();
    assert_eq!(o.index, INC_440);
    assert_eq!(o.index_increment, INC_440 as u128);
}

#[test]
fn phase_continuity_across_frequency_switch() {
    // Five samples at 440 Hz, then a switch to 880 Hz: the store leaves
    // the cursor where it was, and the next sample advances that very
    // cursor by the 880 Hz increment.
    let mut o = WaveTableOscillator::new(44100, sine_wave_table(64));
    o.set_frequency(440000);
    for _ in 0..5 {
        o.get_sample();
    }
    assert_eq!(o.index, 5 * INC_440);
    o.set_frequency(880000);
    assert_eq!(o.index, 5 * INC_440);
    o.get_sample();
    assert_eq!(o.index as u128, (5 * INC_440 + INC_880) as u128 % (64 * FRAC as u128));
}

#[test]
fn bounded_amplitude() {
    // Any reachable frequency, including absurd ones: samples stay within
    // the attenuated amplitude bound.
    for freq in [1u64, 137, 440000, 19999999, 44100000, u64::MAX] {
        let mut o = WaveTableOscillator::new(44100, sine_wave_table(64));
        o.set_frequency(freq);
        for _ in 0..500 {
            let s = o.get_sample();
            assert!(-MAX_SAMPLE <= s && s <= MAX_SAMPLE, "freq {freq}: sample {s}");
            assert!((o.index as u128) < 64 * FRAC as u128);
        }
    }
}

#[test]
fn end_to_end_440_hz() {
    // Table of 64, rate 44100, frequency 440 Hz.  The per-sample cursor
    // increment is 440 * 64 / 44100 table cells; after 100 samples the
    // cursor stands at 100 times that, still short of one full period.
    let mut o = WaveTableOscillator::new(44100, sine_wave_table(64));
    o.set_frequency(440000);
    let mut last = 0i64;
    for _ in 0..100 {
        last = o.get_sample();
    }
    assert_eq!(o.index, 100 * INC_440);
    let cells = o.index as f64 / FRAC as f64;
    let expected = (100.0 * 440.0 * 64.0 / 44100.0) % 64.0;
    assert!((cells - expected).abs() < 1e-3, "{cells} vs {expected}");
    // The cursor sits just before the table end, where the sine is
    // slightly below zero.
    assert!(last < 0);
}

#[test]
fn attenuation_is_three_tenths_toward_zero() {
    // A constant full-scale table makes every interpolated value AMP, so
    // every sample is exactly 3/10 of it, rounded towards zero; mirrored
    // for the negative table.
    let mut o = WaveTableOscillator::new(1, vec![AMP, AMP, AMP, AMP]);
    o.set_frequency(1000);
    for _ in 0..8 {
        assert_eq!(o.get_sample(), 9830);
    }
    let mut o = WaveTableOscillator::new(1, vec![-AMP, -AMP, -AMP, -AMP]);
    o.set_frequency(1000);
    for _ in 0..8 {
        assert_eq!(o.get_sample(), -9830);
    }
}

#[test]
fn interpolation_blends_neighbouring_entries() {
    // An increment of half a table cell: the second sample reads halfway
    // between t[0] = 0 and t[1] = 20000, attenuated to 3/10.
    let mut o = WaveTableOscillator::new(1000, vec![0, 20000, 0, 0]);
    o.set_frequency(125000);
    assert_eq!(o.get_sample(), 0);
    assert_eq!(o.index, FRAC / 2);
    assert_eq!(o.get_sample(), 3000);
}

#[test]
fn interpolation_wraps_to_table_start() {
    // A cursor in the last cell blends the last entry with t[0].  Six
    // quarter-cell steps into a two-entry table [0, 20000] put the cursor
    // at one and a half cells; the next sample reads halfway between
    // t[1] and t[0].
    let mut o = WaveTableOscillator::new(1000, vec![0, 20000]);
    o.set_frequency(125000);
    for _ in 0..6 {
        o.get_sample();
    }
    assert_eq!(o.index, 3 * (FRAC / 2));
    assert_eq!(o.get_sample(), (20000 / 2) * 3 / 10);
}

#[test]
fn huge_frequency_is_accepted_without_failure() {
    // Garbage in, garbage out: an absurd frequency produces an aliased
    // sweep, never a crash or an out-of-range cursor.
    let mut o = WaveTableOscillator::new(44100, sine_wave_table(64));
    o.set_frequency(u64::MAX);
    for _ in 0..100 {
        let s = o.get_sample();
        assert!(-MAX_SAMPLE <= s && s <= MAX_SAMPLE);
        assert!((o.index as u128) < 64 * FRAC as u128);
    }
}
