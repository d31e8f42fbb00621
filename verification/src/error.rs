//! Error taxonomy of the session layer.

use vstd::prelude::*;
use vstd::string::*;

verus! {

/// Errors surfaced by the session layer.
///
/// `ConfigError` is raised when the engine rejects a descriptor at recognizer
/// or stream creation (a null return is the engine's only failure signal).
/// `StreamNotReady` marks a decode attempted before the engine reported
/// readiness. `InvalidState` marks an operation on a session that already
/// reached its terminal state. `DecodingFailed` carries an engine failure
/// code reported mid-decode.
#[derive(Debug, Clone, Copy, PartialEq, Eq, Structural)]
pub enum StreamingError {
    DecodingFailed(i32),
    StreamNotReady,
    InvalidState,
    ConfigError,
}

impl StreamingError {
    /// A short human-readable description of the error.
    pub fn message(&self) -> (text: String)
        ensures
            *self is DecodingFailed ==> text@ == "decoding failed"@,
            *self is StreamNotReady ==> text@ == "stream not ready for processing"@,
            *self is InvalidState ==> text@ == "invalid stream state"@,
            *self is ConfigError ==> text@ == "model configuration error"@,
    {
        match self {
            StreamingError::DecodingFailed(_) => String::from_str("decoding failed"),
            StreamingError::StreamNotReady => String::from_str("stream not ready for processing"),
            StreamingError::InvalidState => String::from_str("invalid stream state"),
            StreamingError::ConfigError => String::from_str("model configuration error"),
        }
    }
}

} // verus!
