use auto_scribe::engine::{assemble_transcript, trim_whitespace, InferenceOutcome, SttEngine};
use auto_scribe::errors::AudioError;

/// WHAT: SttEngine rejects non-existent model path
/// WHY: Early validation prevents runtime failures
#[test]
fn given_invalid_model_path_when_creating_engine_then_model_not_found_error() {
    // Given: Path to a non-existent model, reported absent by the caller
    let invalid_path = "/nonexistent/model.bin".to_string();

    // When: Attempting to create SttEngine
    let result = SttEngine::new(invalid_path, false, false);

    // Then: Returns ModelNotFound error
    assert!(matches!(result, Err(AudioError::ModelNotFound { .. })));
}

/// WHAT: Empty samples cause NoAudioCaptured error
/// WHY: Transcription should not run on empty audio
#[test]
fn engine_given_empty_samples_when_transcribing_then_no_audio_captured_error() {
    // Given: SttEngine with an available model
    let engine = SttEngine::new("models/ggml-base.en.bin".to_string(), true, false).unwrap();
    let empty_samples: Vec<u32> = vec![];

    // When: Attempting to transcribe empty samples
    let result = engine.transcribe(&empty_samples, &InferenceOutcome::Segments(vec![]));

    // Then: Returns NoAudioCaptured error
    assert!(result.is_err());
    assert!(matches!(
        result.unwrap_err(),
        AudioError::NoAudioCaptured { .. }
    ));
}

/// WHAT: The error message of the model check names the missing path
/// WHY: The user is told where the model was looked for
#[test]
fn model_not_found_carries_the_path() {
    let result = SttEngine::new("/tmp/missing.bin".to_string(), false, true);
    match result {
        Err(AudioError::ModelNotFound { path }) => assert_eq!(path, "/tmp/missing.bin"),
        other => panic!("expected ModelNotFound, got {:?}", other),
    }
}

/// WHAT: Recognized segments are joined with single spaces and trimmed
/// WHY: The transcript is one clean line of text
#[test]
fn transcript_joins_segments_with_single_spaces() {
    let samples: Vec<u32> = vec![0.1f32.to_bits(); 160];
    let engine = SttEngine::new("model.bin".to_string(), true, false).unwrap();
    let outcome = InferenceOutcome::Segments(vec!["Hello".to_string(), "world.".to_string()]);
    let text = engine.transcribe(&samples, &outcome).unwrap();
    assert_eq!(text, "Hello world.");
}

/// WHAT: Leading and trailing whitespace is trimmed from the transcript
/// WHY: Segment boundaries often carry padding spaces
#[test]
fn transcript_is_trimmed_at_both_ends() {
    let segments = vec![" leading".to_string(), "trailing ".to_string()];
    assert_eq!(assemble_transcript(&segments), "leading trailing");

    let whitespace_only = vec!["  ".to_string(), "\t".to_string()];
    assert_eq!(assemble_transcript(&whitespace_only), "");

    assert_eq!(assemble_transcript(&vec![]), "");
}

/// WHAT: trim removes Unicode whitespace from the ends only
/// WHY: Inner spacing of the transcript must stay untouched
#[test]
fn trim_whitespace_matches_str_trim() {
    for s in ["", "   ", "a b", "  a b\t\n", "x ", " \u{a0}y\u{a0} "] {
        assert_eq!(trim_whitespace(&s.to_string()), s.trim());
    }
}

/// WHAT: An engine failure surfaces as TranscriptionFailed with its message
/// WHY: The caller distinguishes engine faults from empty input
#[test]
fn failed_inference_becomes_transcription_failed() {
    let samples: Vec<u32> = vec![0.1f32.to_bits(); 160];
    let engine = SttEngine::new("model.bin".to_string(), true, false).unwrap();
    let outcome = InferenceOutcome::Failed("decoder state exhausted".to_string());
    match engine.transcribe(&samples, &outcome) {
        Err(AudioError::TranscriptionFailed { reason }) => {
            assert_eq!(reason, "decoder state exhausted")
        }
        other => panic!("expected TranscriptionFailed, got {:?}", other),
    }
}
