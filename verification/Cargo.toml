[package]
name = "wavetable_synth"
version = "0.1.0"
edition = "2021"
publish = false

[dependencies]
crossterm = "0.27"
rodio = "0.19"
