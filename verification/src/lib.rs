//! Capture-side signal path for streaming system audio to a speech service:
//! frame accounting, channel selection, linear-resampling taps, 16-bit
//! quantisation, one-second chunking, wire encoding, the state machine of
//! the outbound connection and the start/stop rule of the session.
//!
//! Everything here works on integers. Sample values themselves are floating
//! point and stay with the caller; this crate decides which samples are
//! combined, with which weights, and what happens to the result.

pub mod accumulator;
pub mod chunk;
pub mod failure;
pub mod format;
pub mod lifecycle;
pub mod mixer;
pub mod quantize;
pub mod resample;
pub mod session;
pub mod transport;
pub mod wire;
