[package]
name = "guitar_exercises"
version = "0.1.0"
edition = "2021"
publish = false

[dependencies]
chords = "*"
pitch_calc = "*"
rand = "*"
clap = "*"
log = "*"
stderrlog = "*"
derive_builder = "*"
