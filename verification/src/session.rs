//! The streaming decode protocol: feed, poll readiness, decode, extract,
//! detect endpoint, reset, finalize.
//!
//! The engine decides readiness and endpoints; this layer never
//! second-guesses those booleans, it only sequences calls and keeps the
//! session bookkeeping. The host program performs each engine call and
//! feeds the observed outcome into the matching method here; every method
//! says exactly how the bookkeeping moves. Because callers needing bounded
//! latency must bound their own decode loop (the engine offers no timeout),
//! finalization takes an explicit decode budget, and draining is proved to
//! terminate within it.

use vstd::prelude::*;
use vstd::string::*;

use crate::error::StreamingError;

verus! {

/// Protocol phase of a streaming session.
///
/// A session accepts audio until the engine reports an endpoint, is reset
/// for the next utterance, and — once the caller signals the end of input —
/// drains the engine's remaining buffered frames before reaching the
/// terminal phase.
#[derive(Debug, Clone, Copy, PartialEq, Eq, Structural)]
pub enum SessionPhase {
    Idle,
    Accepting,
    Endpoint,
    Draining,
    Finished,
}

/// Session bookkeeping, distinct from any engine state: whether the session
/// is live, how many samples it has fed, the last partial transcript copied
/// out, whether the engine last reported an endpoint, and the caller's
/// clock reading at session start (an opaque tick supplied by the host).
#[derive(Debug, Clone)]
pub struct StreamingState {
    pub session_active: bool,
    pub total_samples_processed: usize,
    pub last_partial_result: String,
    pub endpoint_detected: bool,
    pub session_start_time: u64,
}

/// Mathematical image of a streaming session.
#[verifier::ext_equal]
pub ghost struct SessionView {
    pub active: bool,
    pub total: int,
    pub partial: Seq<char>,
    pub endpoint: bool,
    pub started: u64,
    pub phase: SessionPhase,
    pub budget: u64,
}

/// The session after one waveform chunk of `n` samples was fed.
pub open spec fn accept_v(v: SessionView, n: int) -> SessionView {
    SessionView { total: v.total + n, phase: SessionPhase::Accepting, ..v }
}

/// The session after a transcript `text` was copied out of the engine.
pub open spec fn record_v(v: SessionView, text: Seq<char>) -> SessionView {
    SessionView { partial: text, ..v }
}

/// The session after the engine reported `detected` for its endpoint rules.
pub open spec fn endpoint_v(v: SessionView, detected: bool) -> SessionView {
    SessionView {
        endpoint: detected,
        phase: if detected {
            SessionPhase::Endpoint
        } else {
            v.phase
        },
        ..v
    }
}

/// The session after a reset: back to accepting a fresh utterance, with no
/// partial transcript and no pending endpoint. The cumulative sample count
/// is bookkeeping over the whole session and survives the reset.
pub open spec fn reset_v(v: SessionView) -> SessionView {
    SessionView {
        partial: Seq::<char>::empty(),
        endpoint: false,
        phase: SessionPhase::Accepting,
        ..v
    }
}

/// The session after the caller signalled the end of input, with `budget`
/// decode rounds granted for draining.
pub open spec fn finish_input_v(v: SessionView, budget: u64) -> SessionView {
    SessionView { phase: SessionPhase::Draining, budget: budget, ..v }
}

/// The session after one drain round that observed engine readiness
/// `ready`: one more decode while ready and budgeted, the terminal phase
/// otherwise. Outside the draining phase nothing moves.
pub open spec fn drain_v(v: SessionView, ready: bool) -> SessionView {
    if v.phase != SessionPhase::Draining {
        v
    } else if ready && v.budget > 0 {
        SessionView { budget: (v.budget - 1) as u64, ..v }
    } else {
        SessionView { phase: SessionPhase::Finished, active: false, budget: 0, ..v }
    }
}

/// One streaming decode session over one engine stream, exclusively owned
/// by one logical caller at a time (the engine gives concurrent calls
/// against one stream no meaning, so a session value must not be shared).
#[derive(Debug)]
pub struct StreamingSession {
    state: StreamingState,
    phase: SessionPhase,
    drain_budget: u64,
}

impl View for StreamingSession {
    type V = SessionView;

    closed spec fn view(&self) -> SessionView {
        SessionView {
            active: self.state.session_active,
            total: self.state.total_samples_processed as int,
            partial: self.state.last_partial_result@,
            endpoint: self.state.endpoint_detected,
            started: self.state.session_start_time,
            phase: self.phase,
            budget: self.drain_budget,
        }
    }
}

impl StreamingSession {
    /// Starts the bookkeeping for a fresh session on a newly created
    /// stream; `start_time` is whatever clock reading the host supplies.
    pub fn new(start_time: u64) -> (s: StreamingSession)
        ensures
            s@.active == true,
            s@.total == 0,
            s@.partial == Seq::<char>::empty(),
            s@.endpoint == false,
            s@.started == start_time,
            s@.phase is Idle,
            s@.budget == 0,
    {
        StreamingSession {
            state: StreamingState {
                session_active: true,
                total_samples_processed: 0,
                last_partial_result: String::new(),
                endpoint_detected: false,
                session_start_time: start_time,
            },
            phase: SessionPhase::Idle,
            drain_budget: 0,
        }
    }

    /// Read access to the bookkeeping record.
    pub fn state(&self) -> (s: &StreamingState)
        ensures
            s.session_active == self@.active,
            s.total_samples_processed as int == self@.total,
            s.last_partial_result@ == self@.partial,
            s.endpoint_detected == self@.endpoint,
            s.session_start_time == self@.started,
    {
        &self.state
    }

    /// Records that one chunk of `n_samples` samples was fed to the engine
    /// stream. Refused with `InvalidState` once the end of input was
    /// signalled or the session finished.
    pub fn accept_waveform(&mut self, n_samples: usize) -> (r: Result<(), StreamingError>)
        requires
            old(self)@.total + n_samples <= usize::MAX,
        ensures
            old(self)@.phase is Draining || old(self)@.phase is Finished ==> (r matches Err(e)
                && e == StreamingError::InvalidState) && final(self)@ == old(self)@,
            !(old(self)@.phase is Draining || old(self)@.phase is Finished) ==> r is Ok
                && final(self)@ == accept_v(old(self)@, n_samples as int),
    {
        match self.phase {
            SessionPhase::Draining => Err(StreamingError::InvalidState),
            SessionPhase::Finished => Err(StreamingError::InvalidState),
            _ => {
                self.state.total_samples_processed = self.state.total_samples_processed
                    + n_samples;
                self.phase = SessionPhase::Accepting;
                proof {
                    assert(self@ =~= accept_v(old(self)@, n_samples as int));
                }
                Ok(())
            },
        }
    }

    /// Checks a decode round against the engine's reported readiness: a
    /// decode is only well-placed while the engine is ready (one chunk may
    /// yield zero, one or several decodable units, so callers loop on
    /// readiness rather than decode once per chunk). The bookkeeping itself
    /// does not move.
    pub fn decode_step(&mut self, ready: bool) -> (r: Result<(), StreamingError>)
        ensures
            final(self)@ == old(self)@,
            old(self)@.phase is Finished ==> (r matches Err(e) && e
                == StreamingError::InvalidState),
            !(old(self)@.phase is Finished) && !ready ==> (r matches Err(e) && e
                == StreamingError::StreamNotReady),
            !(old(self)@.phase is Finished) && ready ==> r is Ok,
    {
        match self.phase {
            SessionPhase::Finished => Err(StreamingError::InvalidState),
            _ => if ready {
                Ok(())
            } else {
                Err(StreamingError::StreamNotReady)
            },
        }
    }

    /// Takes what the engine's result query handed back and keeps it as the
    /// last partial transcript. A null result (`None`) is not an error: the
    /// engine may legitimately have nothing to report yet, and it degrades
    /// to the empty transcript.
    pub fn record_result(&mut self, raw: Option<String>) -> (text: String)
        ensures
            text@ == (match raw {
                Some(s) => s@,
                None => Seq::<char>::empty(),
            }),
            final(self)@ == record_v(old(self)@, text@),
    {
        let text = match raw {
            Some(s) => s,
            None => String::new(),
        };
        self.state.last_partial_result = text.clone();
        proof {
            assert(self@ =~= record_v(old(self)@, text@));
        }
        text
    }

    /// Records the engine's endpoint verdict. A detected endpoint moves the
    /// session to the endpoint phase, from which a reset begins the next
    /// utterance. Refused with `InvalidState` once the session finished.
    pub fn observe_endpoint(&mut self, detected: bool) -> (r: Result<(), StreamingError>)
        ensures
            old(self)@.phase is Finished ==> (r matches Err(e) && e
                == StreamingError::InvalidState) && final(self)@ == old(self)@,
            !(old(self)@.phase is Finished) ==> r is Ok && final(self)@ == endpoint_v(
                old(self)@,
                detected,
            ),
    {
        match self.phase {
            SessionPhase::Finished => Err(StreamingError::InvalidState),
            _ => {
                self.state.endpoint_detected = detected;
                if detected {
                    self.phase = SessionPhase::Endpoint;
                }
                proof {
                    assert(self@ =~= endpoint_v(old(self)@, detected));
                }
                Ok(())
            },
        }
    }

    /// Records that the engine stream was reset for a fresh utterance on
    /// the same handle: the partial transcript empties, any endpoint is
    /// cleared, and the session accepts again. Refused with `InvalidState`
    /// once the session finished.
    pub fn reset(&mut self) -> (r: Result<(), StreamingError>)
        ensures
            old(self)@.phase is Finished ==> (r matches Err(e) && e
                == StreamingError::InvalidState) && final(self)@ == old(self)@,
            !(old(self)@.phase is Finished) ==> r is Ok && final(self)@ == reset_v(old(self)@),
    {
        match self.phase {
            SessionPhase::Finished => Err(StreamingError::InvalidState),
            _ => {
                self.state.last_partial_result = String::new();
                self.state.endpoint_detected = false;
                self.phase = SessionPhase::Accepting;
                proof {
                    assert(self@ =~= reset_v(old(self)@));
                }
                Ok(())
            },
        }
    }

    /// Records that no further audio will come, granting `decode_budget`
    /// drain rounds. The buffered trailing frames must still be drained —
    /// skipping the drain loses them — so the session moves to the draining
    /// phase rather than straight to the terminal one. Refused with
    /// `InvalidState` once the session finished.
    pub fn input_finished(&mut self, decode_budget: u64) -> (r: Result<(), StreamingError>)
        ensures
            old(self)@.phase is Finished ==> (r matches Err(e) && e
                == StreamingError::InvalidState) && final(self)@ == old(self)@,
            !(old(self)@.phase is Finished) ==> r is Ok && final(self)@ == finish_input_v(
                old(self)@,
                decode_budget,
            ),
    {
        match self.phase {
            SessionPhase::Finished => Err(StreamingError::InvalidState),
            _ => {
                self.phase = SessionPhase::Draining;
                self.drain_budget = decode_budget;
                proof {
                    assert(self@ =~= finish_input_v(old(self)@, decode_budget));
                }
                Ok(())
            },
        }
    }

    /// One drain round after the end of input, against the engine's
    /// reported readiness. Hands back `Ok(true)` while another decode is
    /// due (engine still ready, budget left) and `Ok(false)` once the
    /// session reached the terminal phase. Refused with `InvalidState`
    /// outside the draining phase.
    pub fn drain_step(&mut self, ready: bool) -> (r: Result<bool, StreamingError>)
        ensures
            !(old(self)@.phase is Draining) ==> (r matches Err(e) && e
                == StreamingError::InvalidState) && final(self)@ == old(self)@,
            old(self)@.phase is Draining ==> final(self)@ == drain_v(old(self)@, ready) && (
            r matches Ok(more) && more == (ready && old(self)@.budget > 0)),
    {
        match self.phase {
            SessionPhase::Draining => {
                if ready && self.drain_budget > 0 {
                    self.drain_budget = self.drain_budget - 1;
                    proof {
                        assert(self@ =~= drain_v(old(self)@, ready));
                    }
                    Ok(true)
                } else {
                    self.phase = SessionPhase::Finished;
                    self.state.session_active = false;
                    self.drain_budget = 0;
                    proof {
                        assert(self@ =~= drain_v(old(self)@, ready));
                    }
                    Ok(false)
                }
            },
            _ => Err(StreamingError::InvalidState),
        }
    }
}

/// Surfaces the status code of one engine decode call: zero is success,
/// anything else is surfaced as `DecodingFailed` with that code rather
/// than ignored.
pub fn decode_status(status: i32) -> (r: Result<(), StreamingError>)
    ensures
        r is Ok <==> status == 0,
        r matches Err(e) ==> e == StreamingError::DecodingFailed(status),
{
    if status == 0 {
        Ok(())
    } else {
        Err(StreamingError::DecodingFailed(status))
    }
}

/// Resetting is idempotent: a second reset with nothing fed in between
/// changes nothing, and a reset session is accepting with an empty partial
/// transcript.
pub proof fn lemma_reset_idempotent(v: SessionView)
    ensures
        reset_v(reset_v(v)) == reset_v(v),
        reset_v(v).phase is Accepting,
        reset_v(v).partial == Seq::<char>::empty(),
{
    assert(reset_v(reset_v(v)) =~= reset_v(v));
}

/// The session after the drain rounds that observed the engine readiness
/// sequence `readiness`, in order.
pub open spec fn drain_run(v: SessionView, readiness: Seq<bool>) -> SessionView
    decreases readiness.len(),
{
    if readiness.len() == 0 {
        v
    } else {
        drain_run(drain_v(v, readiness[0]), readiness.skip(1))
    }
}

/// The terminal phase is absorbing: once finished, no drain round moves
/// the session.
pub proof fn lemma_drain_finished_stable(v: SessionView, readiness: Seq<bool>)
    requires
        v.phase is Finished,
    ensures
        drain_run(v, readiness) == v,
    decreases readiness.len(),
{
    if readiness.len() > 0 {
        lemma_drain_finished_stable(v, readiness.skip(1));
    }
}

/// Draining terminates: after the end of input, any run of drain rounds
/// longer than the granted decode budget ends in the terminal phase,
/// whatever readiness the engine reports round by round.
pub proof fn lemma_drain_terminates(v: SessionView, readiness: Seq<bool>)
    requires
        v.phase is Draining,
        readiness.len() > v.budget,
    ensures
        drain_run(v, readiness).phase is Finished,
    decreases readiness.len(),
{
    let next = drain_v(v, readiness[0]);
    let rest = readiness.skip(1);
    if readiness[0] && v.budget > 0 {
        lemma_drain_terminates(next, rest);
    } else {
        lemma_drain_finished_stable(next, rest);
    }
}

/// The cumulative sample count of the chunks in `chunks`.
pub open spec fn spec_sum(chunks: Seq<int>) -> int
    decreases chunks.len(),
{
    if chunks.len() == 0 {
        0
    } else {
        chunks[0] + spec_sum(chunks.skip(1))
    }
}

/// The session after feeding the chunks of `chunks`, in order.
pub open spec fn feed_all(v: SessionView, chunks: Seq<int>) -> SessionView
    decreases chunks.len(),
{
    if chunks.len() == 0 {
        v
    } else {
        feed_all(accept_v(v, chunks[0]), chunks.skip(1))
    }
}

/// Chunking does not matter to the session: feeding samples split into any
/// sub-chunks leaves the bookkeeping exactly where feeding them as one
/// chunk does. (The transcript itself is the engine's, and the layer hands
/// the engine the same samples either way.)
pub proof fn lemma_feeding_chunked_equals_whole(v: SessionView, chunks: Seq<int>)
    requires
        chunks.len() > 0,
    ensures
        feed_all(v, chunks) == accept_v(v, spec_sum(chunks)),
    decreases chunks.len(),
{
    let rest = chunks.skip(1);
    if chunks.len() == 1 {
        assert(rest.len() == 0);
        assert(accept_v(v, chunks[0]) =~= accept_v(v, spec_sum(chunks)));
    } else {
        lemma_feeding_chunked_equals_whole(accept_v(v, chunks[0]), rest);
        assert(accept_v(accept_v(v, chunks[0]), spec_sum(rest)) =~= accept_v(v, spec_sum(chunks)));
    }
}

} // verus!
