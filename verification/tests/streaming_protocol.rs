use sherpa_rs::error::StreamingError;
use sherpa_rs::session::decode_status;
use sherpa_rs::session::StreamingSession;

#[test]
fn engine_decode_failure_codes_are_surfaced() {
    assert!(decode_status(0).is_ok());
    assert!(matches!(
        decode_status(-3),
        Err(StreamingError::DecodingFailed(-3))
    ));
}

#[test]
fn result_before_any_waveform_is_empty_and_no_error() {
    let mut session = StreamingSession::new(0);
    let text = session.record_result(None);
    assert_eq!(text, "");
    assert_eq!(session.state().last_partial_result, "");
    assert!(session.state().session_active);
}

#[test]
fn repeated_reset_stays_accepting_with_empty_partial() {
    let mut session = StreamingSession::new(0);
    session.accept_waveform(5120).unwrap();
    let text = session.record_result(Some(String::from("partial words")));
    assert_eq!(text, "partial words");
    session.reset().unwrap();
    assert_eq!(session.state().last_partial_result, "");
    assert!(!session.state().endpoint_detected);
    session.reset().unwrap();
    session.reset().unwrap();
    assert_eq!(session.state().last_partial_result, "");
    assert!(!session.state().endpoint_detected);
    // Still accepting: feeding is permitted after any number of resets.
    assert!(session.accept_waveform(100).is_ok());
}

#[test]
fn three_chunks_with_drained_decodes() {
    // 3 chunks of 320 ms at 16 kHz, 5120 samples each; after each chunk the
    // decode loop runs while the engine reports readiness.
    let mut session = StreamingSession::new(0);
    for chunk in 0..3u64 {
        session.accept_waveform(5120).unwrap();
        // Engine is ready twice, then no longer ready.
        assert!(session.decode_step(true).is_ok());
        assert!(session.decode_step(true).is_ok());
        assert!(matches!(
            session.decode_step(false),
            Err(StreamingError::StreamNotReady)
        ));
        let _ = session.record_result(None);
        // No trailing silence beyond the rules here: no endpoint fires.
        session.observe_endpoint(false).unwrap();
        assert!(!session.state().endpoint_detected);
        assert_eq!(
            session.state().total_samples_processed,
            5120 * (chunk as usize + 1)
        );
    }
    assert_eq!(session.state().total_samples_processed, 15360);
}

#[test]
fn endpoint_then_reset_starts_next_utterance() {
    let mut session = StreamingSession::new(0);
    session.accept_waveform(48000).unwrap();
    let text = session.record_result(Some(String::from("first utterance")));
    assert_eq!(text, "first utterance");
    session.observe_endpoint(true).unwrap();
    assert!(session.state().endpoint_detected);
    session.reset().unwrap();
    assert!(!session.state().endpoint_detected);
    assert_eq!(session.state().last_partial_result, "");
    assert!(session.accept_waveform(100).is_ok());
}

#[test]
fn drain_terminates_within_the_budget() {
    let mut session = StreamingSession::new(0);
    session.accept_waveform(5120).unwrap();
    session.input_finished(3).unwrap();
    // The engine keeps claiming readiness; the budget still bounds the drain.
    let mut decodes: u64 = 0;
    loop {
        match session.drain_step(true) {
            Ok(true) => decodes += 1,
            Ok(false) => break,
            Err(e) => panic!("drain refused: {:?}", e),
        }
        assert!(decodes <= 3);
    }
    assert_eq!(decodes, 3);
    assert!(!session.state().session_active);
}

#[test]
fn drain_stops_as_soon_as_the_engine_is_not_ready() {
    let mut session = StreamingSession::new(0);
    session.accept_waveform(5120).unwrap();
    session.input_finished(1000).unwrap();
    assert_eq!(session.drain_step(true).unwrap(), true);
    assert_eq!(session.drain_step(false).unwrap(), false);
    // The session is finished: every further operation is refused.
    assert!(matches!(
        session.accept_waveform(1),
        Err(StreamingError::InvalidState)
    ));
    assert!(matches!(session.reset(), Err(StreamingError::InvalidState)));
    assert!(matches!(
        session.drain_step(true),
        Err(StreamingError::InvalidState)
    ));
    assert!(matches!(
        session.decode_step(true),
        Err(StreamingError::InvalidState)
    ));
}

#[test]
fn feeding_in_chunks_matches_feeding_whole() {
    let mut whole = StreamingSession::new(42);
    whole.accept_waveform(15360).unwrap();

    let mut chunked = StreamingSession::new(42);
    for chunk in [5120usize, 5120, 2560, 2560] {
        chunked.accept_waveform(chunk).unwrap();
        assert!(chunked.decode_step(true).is_ok());
    }

    assert_eq!(
        whole.state().total_samples_processed,
        chunked.state().total_samples_processed
    );
    assert_eq!(
        whole.state().session_active,
        chunked.state().session_active
    );
    assert_eq!(
        whole.state().last_partial_result,
        chunked.state().last_partial_result
    );
}

#[test]
fn decode_before_readiness_is_stream_not_ready() {
    let mut session = StreamingSession::new(0);
    session.accept_waveform(100).unwrap();
    assert!(matches!(
        session.decode_step(false),
        Err(StreamingError::StreamNotReady)
    ));
    // The mistake costs nothing: the session still accepts and decodes.
    assert!(session.decode_step(true).is_ok());
}
