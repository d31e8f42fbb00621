//! Handle lifecycle: ownership and destruction order.
//!
//! The engine hands out raw recognizer and stream handles and enforces no
//! ordering of its own; this module is the discipline around them. The host
//! program performs each engine call and reports its outcome (the handle's
//! identifier, or `None` for the engine's null sentinel); the functions here
//! decide what exists, what may be destroyed, and in which order. A
//! recognizer or stream value can only be obtained from these constructors,
//! and destruction consumes it, so each engine handle is released exactly
//! once; a recognizer counts its live streams and refuses to be destroyed
//! before they are.

use vstd::prelude::*;

use crate::error::StreamingError;

verus! {

/// One engine release call the host program still has to perform.
#[derive(Debug, Clone, Copy, PartialEq, Eq, Structural)]
pub enum ReleaseStep {
    DestroyStream { stream: u64 },
    DestroyRecognizer { recognizer: u64 },
}

/// An instantiated engine recognizer: created exactly once from a
/// translated descriptor, destroyed exactly once, and only after every
/// stream created from it.
#[derive(Debug)]
pub struct RecognizerHandle {
    id: u64,
    live_streams: u64,
}

/// A per-utterance decoding stream, bound to the recognizer it was created
/// from; destroyed before (never after) its recognizer.
#[derive(Debug)]
pub struct StreamHandle {
    id: u64,
    parent: u64,
}

impl StreamHandle {
    /// The engine handle this value owns.
    pub closed spec fn id(self) -> u64 {
        self.id
    }

    /// The recognizer this stream was created from.
    pub closed spec fn parent(self) -> u64 {
        self.parent
    }
}

/// Outcome of a combined construction: either a recognizer with its first
/// stream attached, or the release call that gives the just-created
/// recognizer back to the engine, so that a failed stream creation leaks
/// nothing.
pub enum StreamAttach {
    Attached(RecognizerHandle, StreamHandle),
    Refused(ReleaseStep, StreamingError),
}

impl RecognizerHandle {
    /// The engine handle this value owns.
    pub closed spec fn id(self) -> u64 {
        self.id
    }

    /// How many streams created from this recognizer are still live.
    pub closed spec fn live_streams(self) -> u64 {
        self.live_streams
    }

    /// Takes the outcome of the engine's recognizer constructor. The null
    /// sentinel is the engine's only failure signal and surfaces as
    /// `ConfigError`.
    pub fn created(outcome: Option<u64>) -> (r: Result<RecognizerHandle, StreamingError>)
        ensures
            r is Ok <==> outcome is Some,
            r matches Ok(rec) ==> outcome matches Some(id) && rec.id() == id && rec.live_streams()
                == 0,
            r matches Err(e) ==> e == StreamingError::ConfigError,
    {
        match outcome {
            Some(id) => Ok(RecognizerHandle { id, live_streams: 0 }),
            None => Err(StreamingError::ConfigError),
        }
    }

    /// Takes the outcome of the engine's stream constructor during a
    /// combined construction (a fresh recognizer and its first stream). On
    /// failure the recognizer is consumed and the call that destroys it is
    /// handed back, so no recognizer without a usable stream survives.
    pub fn open_stream(self, outcome: Option<u64>) -> (r: StreamAttach)
        requires
            self.live_streams() == 0,
        ensures
            outcome matches Some(id) ==> (r matches StreamAttach::Attached(rec, s) && rec.id()
                == self.id() && rec.live_streams() == 1 && s.id() == id && s.parent()
                == self.id()),
            outcome is None ==> (r matches StreamAttach::Refused(step, e) && step
                == (ReleaseStep::DestroyRecognizer { recognizer: self.id() }) && e
                == StreamingError::ConfigError),
    {
        match outcome {
            Some(id) => StreamAttach::Attached(
                RecognizerHandle { id: self.id, live_streams: 1 },
                StreamHandle { id, parent: self.id },
            ),
            None => StreamAttach::Refused(
                ReleaseStep::DestroyRecognizer { recognizer: self.id },
                StreamingError::ConfigError,
            ),
        }
    }

    /// Takes the outcome of the engine's stream constructor for a further
    /// stream on an already established recognizer (a recognizer may be
    /// shared read-only by several streams).
    pub fn add_stream(&mut self, outcome: Option<u64>) -> (r: Result<
        StreamHandle,
        StreamingError,
    >)
        requires
            old(self).live_streams() < u64::MAX,
        ensures
            final(self).id() == old(self).id(),
            r is Ok <==> outcome is Some,
            r matches Ok(s) ==> outcome matches Some(id) && s.id() == id && s.parent() == old(
                self,
            ).id() && final(self).live_streams() == old(self).live_streams() + 1,
            r matches Err(e) ==> e == StreamingError::ConfigError && final(self).live_streams()
                == old(self).live_streams(),
    {
        match outcome {
            Some(id) => {
                self.live_streams = self.live_streams + 1;
                Ok(StreamHandle { id, parent: self.id })
            },
            None => Err(StreamingError::ConfigError),
        }
    }

    /// Consumes a stream of this recognizer and hands back the engine call
    /// that destroys it. The stream is gone for good; the recognizer's
    /// live-stream count drops by one.
    pub fn detach_stream(&mut self, stream: StreamHandle) -> (step: ReleaseStep)
        requires
            stream.parent() == old(self).id(),
            old(self).live_streams() >= 1,
        ensures
            final(self).id() == old(self).id(),
            final(self).live_streams() == old(self).live_streams() - 1,
            step == (ReleaseStep::DestroyStream { stream: stream.id() }),
    {
        self.live_streams = self.live_streams - 1;
        ReleaseStep::DestroyStream { stream: stream.id }
    }

    /// Consumes the recognizer and hands back the engine call that destroys
    /// it — but only once no stream created from it is live. While one is,
    /// the recognizer is handed back untouched with `InvalidState`:
    /// destroying a recognizer under a live stream is refused, not merely
    /// discouraged.
    pub fn destroy(self) -> (r: Result<ReleaseStep, (RecognizerHandle, StreamingError)>)
        ensures
            r is Ok <==> self.live_streams() == 0,
            r matches Ok(step) ==> step == (ReleaseStep::DestroyRecognizer {
                recognizer: self.id(),
            }),
            r matches Err(back) ==> back.0 == self && back.1 == StreamingError::InvalidState,
    {
        if self.live_streams == 0 {
            Ok(ReleaseStep::DestroyRecognizer { recognizer: self.id })
        } else {
            Err((self, StreamingError::InvalidState))
        }
    }
}

/// The release calls that end a one-recognizer, one-stream session: the
/// stream first, then its recognizer.
pub open spec fn close_steps(stream_id: u64, recognizer_id: u64) -> Seq<ReleaseStep> {
    seq![
        ReleaseStep::DestroyStream { stream: stream_id },
        ReleaseStep::DestroyRecognizer { recognizer: recognizer_id },
    ]
}

/// Ends a session over a recognizer and its last live stream, consuming
/// both and handing back the engine's release calls in the one permitted
/// order: stream before recognizer.
pub fn close_session(rec: RecognizerHandle, stream: StreamHandle) -> (steps: Vec<ReleaseStep>)
    requires
        stream.parent() == rec.id(),
        rec.live_streams() == 1,
    ensures
        steps@ == close_steps(stream.id(), rec.id()),
{
    let ghost stream_id = stream.id();
    let ghost recognizer_id = rec.id();
    let mut rec = rec;
    let first = rec.detach_stream(stream);
    let second = match rec.destroy() {
        Ok(step) => step,
        Err(_) => vstd::pervasive::unreached(),
    };
    let mut steps: Vec<ReleaseStep> = Vec::new();
    steps.push(first);
    steps.push(second);
    proof {
        assert(steps@ =~= close_steps(stream_id, recognizer_id));
    }
    steps
}

/// Destruction order: in the release calls that end a session, every
/// stream destruction comes before every recognizer destruction.
pub proof fn lemma_close_orders_destruction(stream_id: u64, recognizer_id: u64)
    ensures
        forall|i: int, j: int|
            0 <= i < close_steps(stream_id, recognizer_id).len() && 0 <= j < close_steps(
                stream_id,
                recognizer_id,
            ).len() && close_steps(stream_id, recognizer_id)[i] is DestroyStream && close_steps(
                stream_id,
                recognizer_id,
            )[j] is DestroyRecognizer ==> i < j,
{
    assert(close_steps(stream_id, recognizer_id)[0] is DestroyStream);
    assert(close_steps(stream_id, recognizer_id)[1] is DestroyRecognizer);
}

} // verus!
