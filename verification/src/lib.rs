//! Calibration tones for a two-channel matrix-surround decoder.
//!
//! A test file is a fixed series of silence and pure-tone segments; the
//! relative amplitude and phase of a tone between the two channels tell the
//! decoder which speaker direction it stands for. This crate holds the parts
//! of that work that are exact: the frequency-domain window of a tone, the
//! order and placement of the segments, and the frame-indexed buffer they are
//! written to. Sample values travel through it as IEEE-754 single-precision
//! bit patterns, so every property stated here is a property of the bits that
//! end up in the file.
//!
//! The inverse transform that turns a window into a waveform, and the
//! container that receives the finished frames, are the caller's business.

pub mod direction;
pub mod file;
pub mod generator;
pub mod sample;
pub mod sequence;
pub mod sink;
pub mod timing;
pub mod waveform;
pub mod window;
