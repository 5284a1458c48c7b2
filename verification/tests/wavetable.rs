use wavetable_synth::wavetable::{sine_wave_table, AMP};

#[test]
fn sine_table_quarter_points() {
    let t = sine_wave_table(64);
    assert_eq!(t.len(), 64);
    assert_eq!(t[0], 0);
    assert_eq!(t[16], AMP);
    assert_eq!(t[32], 0);
    assert_eq!(t[48], -AMP);
}

#[test]
fn sine_table_quarter_points_small() {
    let t = sine_wave_table(4);
    assert_eq!(t, vec![0, AMP, 0, -AMP]);
}

#[test]
fn sine_table_exact_entries() {
    let t = sine_wave_table(64);
    assert_eq!(t[1], 3253);
    assert_eq!(t[8], 23130);
    assert_eq!(t[56], -23130);
    assert_eq!(t[63], -3253);
}

#[test]
fn sine_table_tracks_real_sine() {
    // The rational approximation behind the table stays within 0.2% of
    // the real sine.
    let n = 64;
    let t = sine_wave_table(n);
    for (i, &s) in t.iter().enumerate() {
        let exact = (2.0 * std::f64::consts::PI * i as f64 / n as f64).sin() * AMP as f64;
        assert!((s as f64 - exact).abs() <= 0.002 * AMP as f64, "entry {i}: {s} vs {exact}");
    }
}

#[test]
fn sine_table_within_amplitude() {
    for n in [1usize, 2, 3, 7, 64, 100, 1024] {
        let t = sine_wave_table(n);
        assert_eq!(t.len(), n);
        for &s in &t {
            assert!(-AMP <= s && s <= AMP);
        }
    }
}

#[test]
fn sine_table_antisymmetric() {
    // sin(2*pi - x) == -sin(x): the second half period mirrors the first,
    // and the wrap past the last entry lands back on t[0] == 0.
    let t = sine_wave_table(64);
    for i in 1..64 {
        assert_eq!(t[64 - i], -t[i]);
    }
    assert_eq!(t[0], 0);
}

#[test]
fn sine_table_tiny_lengths_are_zero() {
    // With one or two entries per period every sample point falls on a
    // zero crossing.
    assert_eq!(sine_wave_table(1), vec![0]);
    assert_eq!(sine_wave_table(2), vec![0, 0]);
}
