//! Core of a keyboard-driven wavetable synthesizer.
//!
//! The library renders a mono audio stream by table-lookup synthesis: a
//! precomputed table holds one period of a sine wave, and an oscillator
//! walks through it with a fractional cursor whose speed is set by the
//! current target frequency.  Audio hardware works in floating point, but
//! every quantity here is fixed point so that each step of the synthesis
//! carries an exact contract: amplitudes are scaled integers in
//! `[-AMP, AMP]`, the cursor and its per-sample increment are scaled by
//! `FRAC`, and frequencies are whole millihertz.  A thin adapter around the
//! library converts the produced samples to the unit range expected by an
//! audio backend.

pub mod control;
pub mod laws;
pub mod oscillator;
pub mod wavetable;
