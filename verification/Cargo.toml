[package]
name = "test_tones"
version = "0.1.0"
edition = "2021"
publish = false

[dependencies]
rustfft = "*"
wave_stream = "*"
