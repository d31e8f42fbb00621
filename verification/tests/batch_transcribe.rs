use sherpa_rs::batch::BatchStep;
use sherpa_rs::batch::ParaformerRecognizer;
use sherpa_rs::config::ParaformerConfig;
use sherpa_rs::error::StreamingError;
use sherpa_rs::lifecycle::ReleaseStep;

#[test]
fn missing_family_field_fails_with_config_error() {
    // No model file: a required family field is missing.
    let mut c = ParaformerConfig::default();
    c.tokens = String::from("t.bin");
    match ParaformerRecognizer::prepare(&c) {
        Ok(_) => panic!("an incomplete configuration must be refused"),
        Err(e) => assert_eq!(e, StreamingError::ConfigError),
    }
    // No tokens file either way round.
    let mut c = ParaformerConfig::default();
    c.model = String::from("m.onnx");
    assert!(ParaformerRecognizer::prepare(&c).is_err());
}

#[test]
fn minimal_complete_config_prepares_and_transcribes_silence() {
    // Only the two required files of the single-file family are set.
    let mut c = ParaformerConfig::default();
    c.tokens = String::from("t.bin");
    c.model = String::from("m.onnx");
    let descriptor = ParaformerRecognizer::prepare(&c).unwrap();
    assert_eq!(descriptor.model.paraformer.model, "m.onnx");
    assert_eq!(descriptor.model.tokens, "t.bin");

    // The engine accepted the descriptor; transcribe one second of silence.
    let rec = ParaformerRecognizer::created(Some(21)).unwrap();
    let steps = rec.transcribe_plan(16000, 16000);
    assert_eq!(
        steps,
        vec![
            BatchStep::CreateStream,
            BatchStep::AcceptWaveform { sample_rate: 16000, samples: 16000 },
            BatchStep::DecodeStream,
            BatchStep::FetchResult,
            BatchStep::DestroyStream,
        ]
    );
    // Silence gives the engine nothing to report: an empty transcript, no error.
    let result = ParaformerRecognizer::collect_result(None, Vec::new(), Vec::new());
    assert_eq!(result.text, "");
    assert!(result.tokens.is_empty());
    assert!(result.timestamps_ms.is_empty());
    let step = rec.release();
    assert_eq!(step, ReleaseStep::DestroyRecognizer { recognizer: 21 });
}

#[test]
fn engine_rejection_surfaces_as_config_error() {
    match ParaformerRecognizer::created(None) {
        Ok(_) => panic!("a null engine handle must not become a recognizer"),
        Err(e) => assert_eq!(e, StreamingError::ConfigError),
    }
}

#[test]
fn collect_result_copies_the_snapshot() {
    let tokens = vec![String::from("he"), String::from("llo")];
    let stamps = vec![120u32, 480];
    let r = ParaformerRecognizer::collect_result(
        Some(String::from("hello")),
        tokens.clone(),
        stamps.clone(),
    );
    assert_eq!(r.text, "hello");
    assert_eq!(r.tokens, tokens);
    assert_eq!(r.timestamps_ms, stamps);
}

#[test]
fn error_messages_are_descriptive() {
    assert_eq!(
        StreamingError::ConfigError.message(),
        "model configuration error"
    );
    assert_eq!(
        StreamingError::StreamNotReady.message(),
        "stream not ready for processing"
    );
    assert_eq!(StreamingError::InvalidState.message(), "invalid stream state");
    assert_eq!(StreamingError::DecodingFailed(3).message(), "decoding failed");
}
