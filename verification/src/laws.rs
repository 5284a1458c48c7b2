//! The library's stated laws: properties of the synthesis model that hold
//! for every state and input, written out and proved rather than left
//! implicit in the method contracts.

use crate::oscillator::{
    increment_of, lemma_attenuate_magnitude, lemma_lerp_between, lerp_at, phase_modulus, sample_at,
    step_phase, WaveTableOscillator, FRAC, MILLIHERTZ_PER_HERTZ,
};
use crate::wavetable::{table_wf, AMP};
use vstd::arithmetic::div_mod::lemma_div_of0;
use vstd::prelude::*;

verus! {

/// Silence invariant: at frequency 0 the cursor increment is 0, so every
/// produced sample is exactly 0 and the cursor never advances, whatever
/// the table, cursor position and sample rate.
pub proof fn lemma_silence_invariant(t: Seq<i64>, phase: int, rate: int)
    requires
        1 <= t.len(),
        1 <= rate,
    ensures
        increment_of(0, t.len() as int, rate) == 0,
        sample_at(t, phase, 0, rate) == 0,
        step_phase(phase, 0, t.len() as int, rate) == phase,
{
    let n = t.len() as int;
    assert(0 * n == 0);
    assert(0 * (FRAC as int) == 0);
    assert(1000 <= rate * (MILLIHERTZ_PER_HERTZ as int)) by (nonlinear_arith)
        requires
            1 <= rate,
            MILLIHERTZ_PER_HERTZ == 1000,
    ;
    lemma_div_of0(rate * (MILLIHERTZ_PER_HERTZ as int));
}

/// Phase continuity: the cursor after a sample is a function of the
/// cursor before it and of the frequency read for that sample alone.  In
/// particular, switching from one frequency to another never resets the
/// cursor: the first sample after the switch advances the very cursor
/// reached under the old frequency by the new frequency's increment,
/// modulo the table.
pub proof fn lemma_phase_continuity(phase: int, freq_millihertz: int, n: int, rate: int)
    requires
        1 <= n,
        1 <= rate,
    ensures
        increment_of(freq_millihertz, n, rate) != 0 ==> step_phase(phase, freq_millihertz, n, rate)
            == (phase + increment_of(freq_millihertz, n, rate)) % phase_modulus(n),
        increment_of(freq_millihertz, n, rate) == 0 ==> step_phase(phase, freq_millihertz, n, rate)
            == phase,
{
}

/// Bounded amplitude: for every well-formed table, in-range cursor,
/// frequency and rate, the produced sample lies within the attenuated
/// amplitude bound `3 * AMP / 10`.
pub proof fn lemma_bounded_amplitude(t: Seq<i64>, phase: int, freq_millihertz: int, rate: int)
    requires
        table_wf(t),
        0 <= phase < phase_modulus(t.len() as int),
        1 <= rate,
    ensures
        -(3 * AMP / 10) <= sample_at(t, phase, freq_millihertz, rate) <= 3 * AMP / 10,
{
    if increment_of(freq_millihertz, t.len() as int, rate) != 0 {
        lemma_lerp_between(t, phase);
        let v = lerp_at(t, phase);
        if v >= 0 {
            lemma_attenuate_magnitude(v);
        } else {
            lemma_attenuate_magnitude(-v);
        }
    }
}

/// Latency bound: after a frequency store, the very next sample and
/// cursor step are those determined by the stored frequency at the
/// unchanged cursor — no older frequency value can influence them.  The
/// hypotheses are exactly what `set_frequency` ensures about the state it
/// leaves behind.
pub proof fn lemma_latency_bound(
    before: WaveTableOscillator,
    after: WaveTableOscillator,
    millihertz: u64,
)
    requires
        after.frequency.millihertz == millihertz,
        after.sample_rate == before.sample_rate,
        after.wave_table@ == before.wave_table@,
        after.index == before.index,
    ensures
        sample_at(
            after.wave_table@,
            after.index as int,
            after.frequency.millihertz as int,
            after.sample_rate as int,
        ) == sample_at(
            before.wave_table@,
            before.index as int,
            millihertz as int,
            before.sample_rate as int,
        ),
        step_phase(
            after.index as int,
            after.frequency.millihertz as int,
            after.wave_table@.len() as int,
            after.sample_rate as int,
        ) == step_phase(
            before.index as int,
            millihertz as int,
            before.wave_table@.len() as int,
            before.sample_rate as int,
        ),
{
}

} // verus!
