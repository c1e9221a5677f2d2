//! Core of a terminal music player: a three-band equalizer whose gains are
//! stored as clamped centi-decibel integers, a bounded first-in-first-out
//! capture buffer that mirrors the sample stream for analysis, and the
//! integer half of a spectrum analyzer (logarithmic frequency buckets,
//! decibel normalization, and asymmetric temporal smoothing in fixed point).
//!
//! Floating-point signal processing (the biquad filters themselves, the
//! Fourier transform, and the magnitude-to-decibel conversion) lives outside
//! this crate; it hands this crate plain integer values and takes plain
//! integer values back.

pub mod buffer;
pub mod control;
pub mod eq;
pub mod spectrum;
pub mod textfmt;
