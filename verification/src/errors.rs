//! Errors of the audio pipeline.

use vstd::prelude::*;

verus! {

/// What can go wrong between capturing audio and producing a transcript.
///
/// Lock poisoning is deliberately absent: the capture path recovers from it
/// and never surfaces it as an error.
#[derive(Debug, Clone)]
pub enum AudioError {
    /// No default audio input device is available.
    NoMicrophoneFound,
    /// The speech-to-text model artifact does not exist at the configured
    /// location.
    ModelNotFound { path: String },
    /// The inference engine failed internally; carries its message.
    TranscriptionFailed { reason: String },
    /// An operation that needs audio was given an empty sample sequence.
    NoAudioCaptured,
    /// Opening, configuring or running the audio device failed.
    DeviceError { reason: String },
    /// Sample-rate conversion could not be set up or could not process a
    /// chunk.
    ResamplingError { reason: String },
}

/// Result alias used throughout the pipeline.
pub type CoreResult<T> = Result<T, AudioError>;

} // verus!
