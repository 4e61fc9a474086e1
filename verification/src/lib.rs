//! Core of a push-to-talk transcription pipeline.
//!
//! The library owns the logic of the pipeline: a bounded capture buffer fed
//! by a real-time audio callback, the chunking and length accounting of a
//! streaming sample-rate converter, the gating and transcript assembly around
//! a speech-to-text engine, and the state machines that sequence a recording
//! session.  Audio samples travel through the library as their raw 32-bit
//! words (the bit patterns of the mono samples); the logic here stores,
//! orders and counts them but never interprets amplitudes, so the hardware
//! callback, the FFT conversion of each chunk and the inference call stay
//! with the surrounding application, which converts at the boundary.

pub mod capture;
pub mod config;
pub mod resampler;
pub mod engine;
pub mod errors;
pub mod hotkey;
pub mod manager;
pub mod tray;
