//! Wave-table generation.
//!
//! A wave table is a fixed-length sequence of amplitude samples covering
//! exactly one period of a waveform.  Amplitudes are fixed point: the
//! real value `1.0` is stored as `AMP`, so every entry lies in
//! `[-AMP, AMP]`.  The sine table is built from an integer form of
//! Bhaskara I's rational approximation of the sine, which is exact at the
//! quarter-period points: a table of length `n` divisible by 4 holds `0`,
//! `AMP`, `0`, `-AMP` at indices `0`, `n/4`, `n/2`, `3n/4`.

use vstd::arithmetic::div_mod::{
    lemma_div_is_ordered, lemma_div_multiples_vanish, lemma_div_of0, lemma_div_pos_is_pos,
    lemma_fundamental_div_mod,
};
use vstd::prelude::*;

verus! {

/// Fixed-point amplitude scale: the real amplitude `1.0` of the waveform.
pub const AMP: i64 = 32768;

/// Largest supported table length, so that all table arithmetic stays
/// comfortably inside 64-bit integers.
pub const MAX_TABLE_LEN: usize = 65536;

/// The scaled sine approximation on the first half period, `0 <= 2*i <= n`:
/// an integer form of Bhaskara I's formula for `sin(pi * t)` with
/// `t = 2*i/n`, multiplied by `AMP`.  It is zero at `i == 0` and
/// `2*i == n`, and exactly `AMP` at `4*i == n`.
pub open spec fn sine_pos(i: int, n: int) -> int
    recommends
        1 <= n,
        0 <= 2 * i <= n,
{
    let p = i * (n - 2 * i);
    (32 * AMP * p) / (5 * (n * n) - 8 * p)
}

/// The scaled sine approximation over a full period, `0 <= i < n`: the
/// second half period is the negated mirror of the first.
pub open spec fn sine_val(i: int, n: int) -> int
    recommends
        1 <= n,
        0 <= i < n,
{
    if 2 * i <= n {
        sine_pos(i, n)
    } else {
        -sine_pos(n - i, n)
    }
}

/// A well-formed wave table: non-empty, of bounded length, and with every
/// amplitude inside the fixed-point unit range.
pub open spec fn table_wf(t: Seq<i64>) -> bool {
    &&& 1 <= t.len() <= MAX_TABLE_LEN
    &&& forall|i: int| 0 <= i < t.len() ==> -AMP <= #[trigger] t[i] <= AMP
}

/// The chord product `i * (n - 2*i)` of the half-period formula is
/// non-negative and at most `n*n/8`; the bound is tight at `4*i == n`.
proof fn lemma_chord_product_bound(i: int, n: int)
    by (nonlinear_arith)
    requires
        0 <= 2 * i <= n,
    ensures
        0 <= i * (n - 2 * i),
        8 * (i * (n - 2 * i)) <= n * n,
{
}

/// The half-period approximation stays inside `[0, AMP]`.
pub proof fn lemma_sine_pos_range(i: int, n: int)
    requires
        1 <= n,
        0 <= 2 * i <= n,
    ensures
        0 <= sine_pos(i, n) <= AMP,
{
    lemma_chord_product_bound(i, n);
    let p = i * (n - 2 * i);
    let num = 32 * AMP * p;
    let den = 5 * (n * n) - 8 * p;
    assert(1 <= n * n) by (nonlinear_arith)
        requires
            1 <= n,
    ;
    assert(0 < den);
    lemma_div_pos_is_pos(num, den);
    assert(num <= AMP * den);
    lemma_div_is_ordered(num, AMP * den, den);
    assert(AMP * den == den * AMP);
    lemma_div_multiples_vanish(AMP as int, den);
    assert((AMP * den) / den == AMP);
}

/// Periodic antisymmetry: reflecting an index across the period negates
/// the sample, as `sin(2*pi - x) == -sin(x)`.  Together with
/// `sine_val(0, n) == 0` this is the boundary-wrap property the
/// interpolating reader relies on: the entry conceptually following the
/// last one equals the entry at index 0.
pub proof fn lemma_sine_antisymmetric(i: int, n: int)
    requires
        1 <= n,
        0 < i < n,
    ensures
        sine_val(n - i, n) == -sine_val(i, n),
{
    if 2 * i == n {
        let p = i * (n - 2 * i);
        assert(p == 0) by (nonlinear_arith)
            requires
                2 * i == n,
                p == i * (n - 2 * i),
        ;
        assert(1 <= n * n) by (nonlinear_arith)
            requires
                1 <= n,
        ;
        lemma_div_of0(5 * (n * n) - 8 * p);
        assert(sine_pos(i, n) == 0);
    }
}

/// The quarter-period values of the generated sine are exact: for a table
/// length divisible by 4, the samples at phases `0`, `pi/2`, `pi` and
/// `3*pi/2` are `0`, `AMP`, `0` and `-AMP`.
pub proof fn lemma_sine_quarter_points(n: int)
    requires
        4 <= n,
        n % 4 == 0,
    ensures
        sine_val(0, n) == 0,
        sine_val(n / 4, n) == AMP,
        sine_val(n / 2, n) == 0,
        sine_val(3 * (n / 4), n) == -AMP,
{
    let q = n / 4;
    lemma_fundamental_div_mod(n, 4);
    assert(n == 4 * q);
    assert(1 <= q);
    let qq = q * q;
    assert(1 <= qq) by (nonlinear_arith)
        requires
            1 <= q,
            qq == q * q,
    ;
    // Value at index 0: the chord product is 0, so the quotient is 0.
    assert(0 * (n - 2 * 0) == 0);
    assert(1 <= n * n) by (nonlinear_arith)
        requires
            1 <= n,
    ;
    lemma_div_of0(5 * (n * n) - 8 * (0 * (n - 2 * 0)));
    assert(sine_val(0, n) == 0);
    // Value at index n/4: numerator and denominator are both 64*AMP*q*q
    // up to the factor AMP, so the quotient is exactly AMP.
    assert(q * (n - 2 * q) == 2 * qq) by (nonlinear_arith)
        requires
            n == 4 * q,
            qq == q * q,
    ;
    assert(5 * (n * n) == 80 * qq) by (nonlinear_arith)
        requires
            n == 4 * q,
            qq == q * q,
    ;
    let den = 5 * (n * n) - 8 * (2 * qq);
    assert(den == 64 * qq);
    assert(32 * AMP * (2 * qq) == den * AMP);
    lemma_div_multiples_vanish(AMP as int, den);
    assert(sine_pos(q, n) == AMP);
    assert(2 * q <= n);
    assert(sine_val(q, n) == AMP);
    // Value at index n/2: the chord product vanishes again.
    let h = n / 2;
    assert(h == 2 * q);
    assert(h * (n - 2 * h) == 0) by (nonlinear_arith)
        requires
            n == 2 * h,
    ;
    lemma_div_of0(5 * (n * n) - 8 * (h * (n - 2 * h)));
    assert(sine_val(h, n) == 0);
    // Value at index 3n/4: mirrored into the first half period.
    let r = 3 * q;
    assert(2 * r > n);
    assert(n - r == q);
    assert(sine_val(r, n) == -sine_pos(q, n));
}

/// One entry of the first half period of the sine table.
fn sine_pos_sample(i: usize, n: usize) -> (s: i64)
    requires
        1 <= n <= MAX_TABLE_LEN,
        2 * i <= n,
    ensures
        s == sine_pos(i as int, n as int),
        0 <= s <= AMP,
{
    proof {
        lemma_chord_product_bound(i as int, n as int);
        lemma_sine_pos_range(i as int, n as int);
        assert((n as int) * (n as int) <= 65536 * 65536) by (nonlinear_arith)
            requires
                n <= 65536,
        ;
        assert(1 <= (n as int) * (n as int)) by (nonlinear_arith)
            requires
                1 <= n,
        ;
    }
    let iu = i as u64;
    let nu = n as u64;
    let p = iu * (nu - 2 * iu);
    let num = 32 * (AMP as u64) * p;
    let den = 5 * (nu * nu) - 8 * p;
    (num / den) as i64
}

/// One entry of the full sine table.
fn sine_sample(i: usize, n: usize) -> (s: i64)
    requires
        1 <= n <= MAX_TABLE_LEN,
        i < n,
    ensures
        s == sine_val(i as int, n as int),
        -AMP <= s <= AMP,
{
    if 2 * i <= n {
        sine_pos_sample(i, n)
    } else {
        let v = sine_pos_sample(n - i, n);
        -v
    }
}

/// Builds the sine wave table: `n` fixed-point samples covering exactly one
/// period, `t[i] == sine_val(i, n)`.  The table is periodic at its
/// boundary in the sense that the conceptual entry `t[n]` (the wrap of the
/// "next index" lookup) equals `t[0]`.
pub fn sine_wave_table(n: usize) -> (t: Vec<i64>)
    requires
        1 <= n <= MAX_TABLE_LEN,
    ensures
        t@.len() == n,
        forall|i: int| 0 <= i < n ==> t@[i] == sine_val(i, n as int),
        table_wf(t@),
{
    let mut t: Vec<i64> = Vec::new();
    let mut i: usize = 0;
    while i < n
        invariant
            1 <= n <= MAX_TABLE_LEN,
            i <= n,
            t@.len() == i,
            forall|j: int| 0 <= j < i ==> t@[j] == sine_val(j, n as int),
            forall|j: int| 0 <= j < i ==> -AMP <= #[trigger] t@[j] <= AMP,
        decreases n - i,
    {
        let s = sine_sample(i, n);
        t.push(s);
        i = i + 1;
    }
    t
}

} // verus!
