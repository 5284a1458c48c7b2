//! The wavetable oscillator.
//!
//! The oscillator owns an immutable wave table and a fractional read
//! cursor into it; each call to `get_sample` produces exactly one audio
//! sample by linear interpolation between the two table entries
//! straddling the cursor, then advances the cursor by an increment
//! derived from the current target frequency.
//!
//! All state is fixed point.  The cursor (`index`) is the table position
//! scaled by `FRAC`: its integer part `index / FRAC` is a table index and
//! `index % FRAC` the fractional position inside one table cell.  The
//! per-sample increment is `frequency * table_len * FRAC / (rate * 1000)`
//! with the frequency in millihertz, and is recomputed from the frequency
//! controller on every sample, so a frequency change takes effect within
//! one sample and never resets the cursor.  A zero frequency gives a zero
//! increment: the oscillator emits exact silence and holds its cursor
//! still.  Produced samples carry a fixed 3/10 attenuation, so they lie
//! in `[-(3 * AMP / 10), 3 * AMP / 10]`.

use crate::control::FrequencyControl;
use crate::wavetable::{table_wf, AMP};
use vstd::arithmetic::div_mod::{
    lemma_div_is_ordered, lemma_div_multiples_vanish, lemma_div_pos_is_pos,
    lemma_hoist_over_denominator, lemma_mod_division_less_than_divisor, lemma_multiply_divide_lt,
};
use vstd::prelude::*;

verus! {

/// Fixed-point scale of the read cursor: one table cell spans `FRAC`
/// cursor units.
pub const FRAC: u64 = 0x1_0000_0000;

/// Millihertz per hertz: frequencies are stored in millihertz so that
/// musical pitches (which need sub-hertz resolution) are whole numbers.
pub const MILLIHERTZ_PER_HERTZ: u64 = 1000;

/// The cursor wraps modulo this value: the whole table, in cursor units.
pub open spec fn phase_modulus(n: int) -> int {
    n * FRAC
}

/// The per-sample cursor increment for a target frequency in millihertz:
/// `frequency_hz * n / rate` table cells, in cursor units, rounded down.
pub open spec fn increment_of(freq_millihertz: int, n: int, rate: int) -> int
    recommends
        1 <= n,
        1 <= rate,
{
    (freq_millihertz * n * FRAC) / (rate * MILLIHERTZ_PER_HERTZ)
}

/// Where the cursor stands after producing one sample: unmoved when the
/// increment is zero (silence), otherwise advanced by the increment and
/// wrapped modulo the table.
pub open spec fn step_phase(phase: int, freq_millihertz: int, n: int, rate: int) -> int
    recommends
        1 <= n,
        1 <= rate,
{
    let inc = increment_of(freq_millihertz, n, rate);
    if inc == 0 {
        phase
    } else {
        (phase + inc) % phase_modulus(n)
    }
}

/// Linear interpolation of the table at a cursor position: the entries at
/// `i0 = phase / FRAC` and its successor (wrapping to 0 past the table
/// end) are blended by the fractional position, rounding down.
pub open spec fn lerp_at(t: Seq<i64>, phase: int) -> int
    recommends
        table_wf(t),
        0 <= phase < phase_modulus(t.len() as int),
{
    let i0 = phase / FRAC as int;
    let frac = phase % FRAC as int;
    let i1 = (i0 + 1) % t.len() as int;
    (t[i0] * (FRAC - frac) + t[i1] * frac) / FRAC as int
}

/// The fixed output attenuation: 3/10 of the amplitude, rounded towards
/// zero, so attenuation never flips a sign.
pub open spec fn attenuate(s: int) -> int {
    if s >= 0 {
        (s * 3) / 10
    } else {
        -((-s * 3) / 10)
    }
}

/// The sample produced for a given cursor, frequency and rate: exact
/// silence when the increment is zero, otherwise the attenuated
/// interpolated table value at the current cursor.
pub open spec fn sample_at(t: Seq<i64>, phase: int, freq_millihertz: int, rate: int) -> int
    recommends
        table_wf(t),
        0 <= phase < phase_modulus(t.len() as int),
        1 <= rate,
{
    if increment_of(freq_millihertz, t.len() as int, rate) == 0 {
        0
    } else {
        attenuate(lerp_at(t, phase))
    }
}

/// A table-lookup oscillator producing one fixed-point sample per call.
pub struct WaveTableOscillator {
    /// Output sample rate in samples per second.
    pub sample_rate: u32,
    /// One period of the waveform, fixed point; immutable after
    /// construction.
    pub wave_table: Vec<i64>,
    /// Fractional read cursor into the table, scaled by `FRAC`; always in
    /// `[0, wave_table.len() * FRAC)`.
    pub index: u64,
    /// The most recently computed cursor increment; refreshed from the
    /// controller by `update_frequency` before every sample.
    pub index_increment: u128,
    /// The frequency controller the oscillator reads on every sample.
    pub frequency: FrequencyControl,
}

impl WaveTableOscillator {
    /// Well-formed oscillator state: a positive sample rate, a well-formed
    /// table, and a cursor inside the table.
    pub open spec fn wf(&self) -> bool {
        &&& 1 <= self.sample_rate
        &&& table_wf(self.wave_table@)
        &&& self.index < phase_modulus(self.wave_table@.len() as int)
    }

    /// A fresh oscillator: cursor at the table start, silent (frequency
    /// and increment zero).
    pub fn new(sample_rate: u32, wave_table: Vec<i64>) -> (o: WaveTableOscillator)
        requires
            1 <= sample_rate,
            table_wf(wave_table@),
        ensures
            o.wf(),
            o.sample_rate == sample_rate,
            o.wave_table@ == wave_table@,
            o.index == 0,
            o.index_increment == 0,
            o.frequency.millihertz == 0,
    {
        proof {
            lemma_phase_modulus_positive(wave_table@.len() as int);
        }
        WaveTableOscillator {
            sample_rate,
            wave_table,
            index: 0,
            index_increment: 0,
            frequency: FrequencyControl::new(),
        }
    }

    /// Stores a new target frequency in the controller.  Nothing else
    /// moves: in particular the cursor is untouched, so a frequency
    /// change is phase-continuous.
    pub fn set_frequency(&mut self, millihertz: u64)
        ensures
            final(self).frequency.millihertz == millihertz,
            final(self).sample_rate == old(self).sample_rate,
            final(self).wave_table@ == old(self).wave_table@,
            final(self).index == old(self).index,
            final(self).index_increment == old(self).index_increment,
            old(self).wf() ==> final(self).wf(),
    {
        self.frequency.set(millihertz);
    }

    /// Reads the current target frequency from the controller.
    pub fn get_frequency(&self) -> (millihertz: u64)
        ensures
            millihertz == self.frequency.millihertz,
    {
        self.frequency.get()
    }

    /// The configured output sample rate.
    pub fn sample_rate(&self) -> (rate: u32)
        ensures
            rate == self.sample_rate,
    {
        self.sample_rate
    }

    /// Recomputes the cursor increment from the frequency currently in
    /// the controller.  Called before every sample, so the increment is
    /// never stale by more than one sample period.
    pub fn update_frequency(&mut self)
        requires
            old(self).wf(),
        ensures
            final(self).wf(),
            final(self).sample_rate == old(self).sample_rate,
            final(self).wave_table@ == old(self).wave_table@,
            final(self).index == old(self).index,
            final(self).frequency == old(self).frequency,
            final(self).index_increment == increment_of(
                old(self).frequency.millihertz as int,
                old(self).wave_table@.len() as int,
                old(self).sample_rate as int,
            ),
    {
        let freq = self.frequency.get();
        let n = self.wave_table.len();
        proof {
            assert(0 <= (freq as int) * (n as int) <= 0xffff_ffff_ffff_ffff * 65536int)
                by (nonlinear_arith)
                requires
                    freq <= 0xffff_ffff_ffff_ffff,
                    n <= 65536,
            ;
            assert(0 <= ((freq as int) * (n as int)) * (FRAC as int) <= (0xffff_ffff_ffff_ffff
                * 65536int) * 0x1_0000_0000int) by (nonlinear_arith)
                requires
                    0 <= (freq as int) * (n as int) <= 0xffff_ffff_ffff_ffff * 65536int,
                    FRAC == 0x1_0000_0000,
            ;
        }
        let num = (freq as u128) * (n as u128) * (FRAC as u128);
        proof {
            assert(0 <= (self.sample_rate as int) * (MILLIHERTZ_PER_HERTZ as int) <= 0xffff_ffffu64
                * 1000int) by (nonlinear_arith)
                requires
                    self.sample_rate <= 0xffff_ffffu64,
                    MILLIHERTZ_PER_HERTZ == 1000,
            ;
        }
        let den = (self.sample_rate as u128) * (MILLIHERTZ_PER_HERTZ as u128);
        self.index_increment = num / den;
    }

    /// The linearly interpolated table value at the current cursor,
    /// before attenuation.
    pub fn lerp(&self) -> (s: i64)
        requires
            self.wf(),
        ensures
            s == lerp_at(self.wave_table@, self.index as int),
            -AMP <= s <= AMP,
    {
        let n = self.wave_table.len();
        let i0u = self.index / FRAC;
        let frac = self.index % FRAC;
        proof {
            lemma_phase_modulus_positive(n as int);
            lemma_multiply_divide_lt(self.index as int, FRAC as int, n as int);
            lemma_mod_division_less_than_divisor(self.index as int, FRAC as int);
        }
        let i0 = i0u as usize;
        let i1 = (i0 + 1) % n;
        let s0 = self.wave_table[i0];
        let s1 = self.wave_table[i1];
        let b0 = (s0 + AMP) as u64;
        let b1 = (s1 + AMP) as u64;
        proof {
            lemma_lerp_between(self.wave_table@, self.index as int);
            assert(b0 * (FRAC - frac) + b1 * frac == (s0 * ((FRAC - frac) as int) + s1 * (
            frac as int)) + AMP * (FRAC as int) && b0 * (FRAC - frac) + b1 * frac <= 65536 * (
            FRAC as int)) by (nonlinear_arith)
                requires
                    b0 == s0 + AMP,
                    b1 == s1 + AMP,
                    AMP == 32768,
                    -AMP <= s0 <= AMP,
                    -AMP <= s1 <= AMP,
                    0 <= frac < FRAC,
                    FRAC == 0x1_0000_0000,
            ;
        }
        let w = b0 * (FRAC - frac) + b1 * frac;
        let q = w / FRAC;
        proof {
            lemma_div_is_ordered(w as int, 65536 * (FRAC as int), FRAC as int);
            assert(65536 * (FRAC as int) == (FRAC as int) * 65536) by (nonlinear_arith);
            lemma_div_multiples_vanish(65536, FRAC as int);
            lemma_hoist_over_denominator(
                s0 * ((FRAC - frac) as int) + s1 * (frac as int),
                AMP as int,
                FRAC as nat,
            );
        }
        (q as i64) - AMP
    }

    /// Produces one audio sample.
    ///
    /// Per call: read the controller's frequency and recompute the cursor
    /// increment; if the increment is zero, return exact silence without
    /// moving the cursor; otherwise return the attenuated interpolation at
    /// the current cursor and advance the cursor by the increment, wrapped
    /// modulo the table.  Total for every state and frequency, and the
    /// result always lies within the attenuated amplitude bound.
    pub fn get_sample(&mut self) -> (s: i64)
        requires
            old(self).wf(),
        ensures
            final(self).wf(),
            final(self).sample_rate == old(self).sample_rate,
            final(self).wave_table@ == old(self).wave_table@,
            final(self).frequency == old(self).frequency,
            final(self).index_increment == increment_of(
                old(self).frequency.millihertz as int,
                old(self).wave_table@.len() as int,
                old(self).sample_rate as int,
            ),
            s == sample_at(
                old(self).wave_table@,
                old(self).index as int,
                old(self).frequency.millihertz as int,
                old(self).sample_rate as int,
            ),
            final(self).index == step_phase(
                old(self).index as int,
                old(self).frequency.millihertz as int,
                old(self).wave_table@.len() as int,
                old(self).sample_rate as int,
            ),
            -(3 * AMP / 10) <= s <= 3 * AMP / 10,
    {
        self.update_frequency();
        if self.index_increment == 0 {
            return 0;
        }
        let sample = self.lerp();
        let n = self.wave_table.len() as u64;
        proof {
            lemma_phase_modulus_positive(n as int);
            assert(n * FRAC <= 65536 * (FRAC as int)) by (nonlinear_arith)
                requires
                    n <= 65536,
                    0 <= FRAC,
            ;
        }
        let modulus = n * FRAC;
        proof {
            lemma_increment_bound(
                self.frequency.millihertz as int,
                n as int,
                self.sample_rate as int,
            );
        }
        let advanced = ((self.index as u128) + self.index_increment) % (modulus as u128);
        proof {
            lemma_mod_division_less_than_divisor(
                self.index + self.index_increment,
                modulus as int,
            );
        }
        self.index = advanced as u64;
        if sample >= 0 {
            proof {
                lemma_attenuate_magnitude(sample as int);
            }
            (((sample as u64) * 3) / 10) as i64
        } else {
            proof {
                lemma_attenuate_magnitude(-(sample as int));
            }
            -(((((-sample) as u64) * 3) / 10) as i64)
        }
    }
}

/// The cursor increment derived from any representable frequency fits in
/// 128 bits.
pub proof fn lemma_increment_bound(freq: int, n: int, rate: int)
    requires
        0 <= freq <= 0xffff_ffff_ffff_ffff,
        1 <= n <= 65536,
        1 <= rate,
    ensures
        0 <= increment_of(freq, n, rate) <= (0xffff_ffff_ffff_ffff * 65536int) * 0x1_0000_0000int,
{
    assert(0 <= freq * n <= 0xffff_ffff_ffff_ffff * 65536int) by (nonlinear_arith)
        requires
            0 <= freq <= 0xffff_ffff_ffff_ffff,
            1 <= n <= 65536,
    ;
    assert(0 <= (freq * n) * (FRAC as int) <= (0xffff_ffff_ffff_ffff * 65536int)
        * 0x1_0000_0000int) by (nonlinear_arith)
        requires
            0 <= freq * n <= 0xffff_ffff_ffff_ffff * 65536int,
            FRAC == 0x1_0000_0000,
    ;
    assert(1000 <= rate * (MILLIHERTZ_PER_HERTZ as int)) by (nonlinear_arith)
        requires
            1 <= rate,
            MILLIHERTZ_PER_HERTZ == 1000,
    ;
    let num = freq * n * (FRAC as int);
    let den = rate * (MILLIHERTZ_PER_HERTZ as int);
    lemma_div_pos_is_pos(num, den);
    vstd::arithmetic::div_mod::lemma_div_nonincreasing(num, den);
}

/// The cursor modulus of a non-empty table is positive.
pub proof fn lemma_phase_modulus_positive(n: int)
    requires
        1 <= n,
    ensures
        FRAC <= phase_modulus(n),
{
    assert(FRAC as int <= n * FRAC) by (nonlinear_arith)
        requires
            1 <= n,
            0 <= FRAC,
    ;
}

/// For a non-negative amplitude within range, `s * 3 / 10` stays within
/// 3/10 of the range.
pub proof fn lemma_attenuate_magnitude(s: int)
    requires
        0 <= s <= AMP,
    ensures
        0 <= (s * 3) / 10 <= 3 * AMP / 10,
{
    lemma_div_pos_is_pos(s * 3, 10);
    lemma_div_is_ordered(s * 3, AMP * 3, 10);
}

/// The interpolated value lies between `-AMP` and `AMP` whenever the
/// table is well-formed and the cursor is inside the table.
pub proof fn lemma_lerp_between(t: Seq<i64>, phase: int)
    requires
        table_wf(t),
        0 <= phase < phase_modulus(t.len() as int),
    ensures
        -AMP <= lerp_at(t, phase) <= AMP,
{
    let n = t.len() as int;
    let i0 = phase / FRAC as int;
    let frac = phase % FRAC as int;
    let i1 = (i0 + 1) % n;
    lemma_phase_modulus_positive(n);
    lemma_multiply_divide_lt(phase, FRAC as int, n);
    lemma_div_pos_is_pos(phase, FRAC as int);
    lemma_mod_division_less_than_divisor(phase, FRAC as int);
    lemma_mod_division_less_than_divisor(i0 + 1, n);
    let num = t[i0] * (FRAC - frac) + t[i1] * frac;
    assert(-(AMP * FRAC) <= num <= AMP * FRAC) by (nonlinear_arith)
        requires
            num == t[i0] * (FRAC - frac) + t[i1] * frac,
            -AMP <= t[i0] <= AMP,
            -AMP <= t[i1] <= AMP,
            0 <= frac < FRAC,
    ;
    assert(AMP * FRAC == (FRAC as int) * AMP) by (nonlinear_arith);
    lemma_div_is_ordered(num, AMP * FRAC, FRAC as int);
    lemma_div_is_ordered(-(AMP * FRAC), num, FRAC as int);
    lemma_div_multiples_vanish(AMP as int, FRAC as int);
    lemma_div_multiples_vanish(-(AMP as int), FRAC as int);
}

} // verus!
