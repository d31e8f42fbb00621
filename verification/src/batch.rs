//! One-shot batch recognition over a complete audio buffer.
//!
//! A batch session creates a transient engine stream, feeds the whole
//! buffer, decodes once (batch decoding is synchronous and complete after
//! one call, so there is no readiness loop), copies the result out and
//! destroys the stream at once. The host program performs the engine calls
//! in exactly the order planned here.

use vstd::prelude::*;
use vstd::string::*;

use crate::config::ParaformerConfig;
use crate::config::paraformer_config_complete;
use crate::descriptor::OfflineRecognizerDescriptor;
use crate::error::StreamingError;
use crate::lifecycle::RecognizerHandle;
use crate::lifecycle::ReleaseStep;
use crate::translate::is_paraformer_translation;
use crate::translate::translate_paraformer;

verus! {

/// One engine call of a batch transcription, in the order the host program
/// must perform them.
#[derive(Debug, Clone, Copy, PartialEq, Eq, Structural)]
pub enum BatchStep {
    CreateStream,
    AcceptWaveform { sample_rate: u32, samples: usize },
    DecodeStream,
    FetchResult,
    DestroyStream,
}

/// The engine calls of one batch transcription of `samples` samples at
/// `sample_rate`: create the transient stream, feed the whole buffer,
/// decode once, copy the result out, destroy the stream. The stream is
/// destroyed after its last use and before the recognizer is ever
/// released, so the destruction order holds on this path by construction.
pub open spec fn batch_steps(sample_rate: u32, samples: usize) -> Seq<BatchStep> {
    seq![
        BatchStep::CreateStream,
        BatchStep::AcceptWaveform { sample_rate, samples },
        BatchStep::DecodeStream,
        BatchStep::FetchResult,
        BatchStep::DestroyStream,
    ]
}

/// An immutable snapshot of a recognition outcome, copied out of the
/// engine-owned transient result object before that is released: the
/// transcript, and — for families that report them — the token strings and
/// their timestamps in milliseconds.
#[derive(Debug, Clone)]
pub struct RecognitionResult {
    pub text: String,
    pub tokens: Vec<String>,
    pub timestamps_ms: Vec<u32>,
}

/// A batch recognizer for the paraformer family: one engine recognizer,
/// held without long-lived streams (each transcription uses a transient
/// one).
#[derive(Debug)]
pub struct ParaformerRecognizer {
    handle: RecognizerHandle,
}

impl ParaformerRecognizer {
    /// The engine handle this recognizer owns.
    pub closed spec fn id(self) -> u64 {
        self.handle.id()
    }

    /// The recognizer tracks no live streams.
    pub closed spec fn wf(self) -> bool {
        self.handle.live_streams() == 0
    }

    /// Validates a configuration and translates it into the engine's batch
    /// descriptor. A configuration missing a required family field is
    /// refused with `ConfigError` before any engine call, so nothing is
    /// created — let alone a stream — for it.
    pub fn prepare(config: &ParaformerConfig) -> (r: Result<
        OfflineRecognizerDescriptor,
        StreamingError,
    >)
        ensures
            r is Ok <==> paraformer_config_complete(*config),
            r matches Ok(d) ==> is_paraformer_translation(d, *config),
            r matches Err(e) ==> e == StreamingError::ConfigError,
    {
        if config.is_complete() {
            Ok(translate_paraformer(config))
        } else {
            Err(StreamingError::ConfigError)
        }
    }

    /// Takes the outcome of the engine's recognizer constructor on a
    /// prepared descriptor. The null sentinel surfaces as `ConfigError`.
    pub fn created(outcome: Option<u64>) -> (r: Result<ParaformerRecognizer, StreamingError>)
        ensures
            r is Ok <==> outcome is Some,
            r matches Ok(p) ==> outcome matches Some(id) && p.id() == id && p.wf(),
            r matches Err(e) ==> e == StreamingError::ConfigError,
    {
        match RecognizerHandle::created(outcome) {
            Ok(handle) => Ok(ParaformerRecognizer { handle }),
            Err(e) => Err(e),
        }
    }

    /// Plans the engine calls of one transcription of a complete buffer of
    /// `samples` samples at `sample_rate`.
    pub fn transcribe_plan(&self, sample_rate: u32, samples: usize) -> (steps: Vec<BatchStep>)
        ensures
            steps@ == batch_steps(sample_rate, samples),
    {
        let mut steps: Vec<BatchStep> = Vec::new();
        steps.push(BatchStep::CreateStream);
        steps.push(BatchStep::AcceptWaveform { sample_rate, samples });
        steps.push(BatchStep::DecodeStream);
        steps.push(BatchStep::FetchResult);
        steps.push(BatchStep::DestroyStream);
        proof {
            assert(steps@ =~= batch_steps(sample_rate, samples));
        }
        steps
    }

    /// Materializes the snapshot from what the engine's result query handed
    /// back. A null result (`None` for the text) is not an error: it
    /// degrades to the empty transcript.
    pub fn collect_result(text: Option<String>, tokens: Vec<String>, timestamps_ms: Vec<u32>) -> (r:
        RecognitionResult)
        ensures
            r.text@ == (match text {
                Some(t) => t@,
                None => Seq::<char>::empty(),
            }),
            r.tokens == tokens,
            r.timestamps_ms == timestamps_ms,
    {
        let out = match text {
            Some(t) => t,
            None => String::new(),
        };
        RecognitionResult { text: out, tokens, timestamps_ms }
    }

    /// Consumes the recognizer and hands back the engine call that destroys
    /// it; with no long-lived streams, release is always permitted.
    pub fn release(self) -> (step: ReleaseStep)
        requires
            self.wf(),
        ensures
            step == (ReleaseStep::DestroyRecognizer { recognizer: self.id() }),
    {
        let ParaformerRecognizer { handle } = self;
        match handle.destroy() {
            Ok(step) => step,
            Err(_) => vstd::pervasive::unreached(),
        }
    }
}

/// In a batch plan, the transient stream is created before every other
/// engine call of the transcription and destroyed only after them:
/// creation comes first, destruction last, every use in between.
pub proof fn lemma_batch_plan_orders_destruction(sample_rate: u32, samples: usize)
    ensures
        forall|i: int|
            0 <= i < batch_steps(sample_rate, samples).len() && batch_steps(sample_rate, samples)[i]
                is DestroyStream ==> i == batch_steps(sample_rate, samples).len() - 1,
        forall|i: int|
            0 <= i < batch_steps(sample_rate, samples).len() && batch_steps(sample_rate, samples)[i]
                is CreateStream ==> i == 0,
{
    let steps = batch_steps(sample_rate, samples);
    assert forall|i: int|
        0 <= i < steps.len() && steps[i] is DestroyStream implies i == steps.len() - 1 by {
        if i < steps.len() - 1 {
            assert(steps[0] is CreateStream);
            assert(steps[1] is AcceptWaveform);
            assert(steps[2] is DecodeStream);
            assert(steps[3] is FetchResult);
        }
    }
    assert forall|i: int| 0 <= i < steps.len() && steps[i] is CreateStream implies i == 0 by {
        if i > 0 {
            assert(steps[1] is AcceptWaveform);
            assert(steps[2] is DecodeStream);
            assert(steps[3] is FetchResult);
            assert(steps[4] is DestroyStream);
        }
    }
}

} // verus!
