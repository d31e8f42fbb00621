//! Session lifecycle and resource-ownership layer for a streaming
//! speech-recognition engine.
//!
//! The decoding engine itself (feature extraction, neural inference, search)
//! is an opaque external collaborator reached over a C interface; this crate
//! holds the logic around it: translating user-facing configurations into the
//! engine's descriptor shape, tracking the two-tier handle hierarchy (a
//! long-lived recognizer, short-lived per-utterance streams), and sequencing
//! the streaming decode protocol. A host program performs each engine call
//! and feeds the outcome back into the verified state machines defined here.

pub mod batch;
pub mod config;
pub mod descriptor;
pub mod error;
pub mod lifecycle;
pub mod session;
pub mod translate;
