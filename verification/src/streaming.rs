//! The persistent-connection state machine of a streaming provider.
//!
//! A streaming connection owns a generation counter, a FIFO of pending chunk
//! metadata, and the interim text of the current utterance. Every reconnect
//! increments the generation; a reader that was spawned with an older
//! generation emits nothing and changes nothing. A send failure clears the
//! connection state, so a reconnect starts clean and a retried send is made
//! exactly once.

use vstd::prelude::*;
use crate::transcript::{TranscriptLog, TranscriptUpdate};
use crate::worker::{TranscriptionError, MIN_TRANSCRIBE_SAMPLES};

verus! {

/// Hard cap on connection attempts before a connection error is surfaced.
pub const MAX_RECONNECT_ATTEMPTS: u32 = 3;

/// Pause between connection attempts.
pub const RECONNECT_DELAY_MS: u64 = 1000;

/// How long the keep-alive task waits between pings; below the backend's
/// idle-disconnect threshold.
pub const KEEPALIVE_INTERVAL_MS: u64 = 8000;

/// Hard ceiling on waiting for the reader when the stream is closed.
pub const STREAM_CLOSE_TIMEOUT_MS: u64 = 10000;

/// Metadata queued before a chunk is sent, popped by the reader when the
/// correlated final result arrives; FIFO order matches send order.
#[derive(Clone, Copy, Debug, PartialEq, Eq, Structural)]
pub struct PendingChunkInfo {
    pub audio_start_ms: u64,
    pub audio_end_ms: u64,
    pub duration_ms: u64,
}

/// Connection phases of a streaming provider.
#[derive(Clone, Copy, Debug, PartialEq, Eq, Structural)]
pub enum ConnectionState {
    Disconnected,
    Connecting,
    Connected,
}

/// One inbound message of the streaming backend, already parsed to plain
/// values at the network edge: the best alternative's text and confidence
/// (in thousandths) and the two finality markers.
#[derive(Clone, Debug)]
pub struct ReaderMessage {
    pub text: String,
    pub confidence_milli: u32,
    /// The backend marked this result final.
    pub is_final: bool,
    /// The backend signalled a natural pause; treated as an early final to
    /// cut perceived latency.
    pub speech_final: bool,
}

/// What the reader did with one inbound message.
#[derive(Clone, Copy, Debug, PartialEq, Eq, Structural)]
pub enum ReaderOutcome {
    /// The reader's generation is stale: a newer connection exists, the
    /// reader must exit without emitting.
    Stale,
    /// Empty transcript: nothing to emit.
    Ignored,
    /// A final result was emitted; one pending chunk info was consumed.
    EmittedFinal,
    /// An interim result was emitted; the pending queue was left alone.
    EmittedPartial,
}

/// What `transcribe` should do after a send attempt.
#[derive(Clone, Copy, Debug, PartialEq, Eq, Structural)]
pub enum SendStep {
    /// The send went through.
    Done,
    /// First failure: clear state, reconnect, retry the send once.
    CleanupAndRetry,
    /// A retried send failed too: surface the error.
    Fail,
}

/// Per-connection state of one streaming transcriber instance (one per
/// device).
pub struct StreamingConnection {
    state: ConnectionState,
    generation: u64,
    pending: Vec<PendingChunkInfo>,
    interim_text: String,
    source_label: Option<String>,
}

impl StreamingConnection {
    /// The connection phase.
    pub closed spec fn spec_state(self) -> ConnectionState {
        self.state
    }

    /// The live generation; a reader is current exactly when it carries this
    /// value.
    pub closed spec fn spec_generation(self) -> u64 {
        self.generation
    }

    /// The queued chunk metadata, oldest first.
    pub closed spec fn spec_pending(self) -> Seq<PendingChunkInfo> {
        self.pending@
    }

    /// Accumulated interim text of the current utterance.
    pub closed spec fn spec_interim(self) -> Seq<char> {
        self.interim_text@
    }

    /// The fixed speaker label of this instance.
    pub closed spec fn spec_source_label(self) -> Option<String> {
        self.source_label
    }

    /// A fresh, disconnected connection.
    pub fn new() -> (r: Self)
        ensures
            r.spec_state() == ConnectionState::Disconnected,
            r.spec_generation() == 0,
            r.spec_pending().len() == 0,
            r.spec_interim().len() == 0,
            r.spec_source_label() is None,
    {
        StreamingConnection {
            state: ConnectionState::Disconnected,
            generation: 0,
            pending: Vec::new(),
            interim_text: String::new(),
            source_label: None,
        }
    }

    /// Fix the speaker label of this instance: "user" for the microphone
    /// connection, "interlocutor" for the system-audio one.
    pub fn set_source_label(&mut self, label: String)
        ensures
            final(self).spec_source_label() == Some(label),
            final(self).spec_state() == old(self).spec_state(),
            final(self).spec_generation() == old(self).spec_generation(),
            final(self).spec_pending() == old(self).spec_pending(),
            final(self).spec_interim() == old(self).spec_interim(),
    {
        self.source_label = Some(label);
    }

    /// Mark a connection attempt under way.
    pub fn begin_connecting(&mut self)
        ensures
            final(self).spec_state() == ConnectionState::Connecting,
            final(self).spec_generation() == old(self).spec_generation(),
            final(self).spec_pending() == old(self).spec_pending(),
            final(self).spec_interim() == old(self).spec_interim(),
            final(self).spec_source_label() == old(self).spec_source_label(),
    {
        self.state = ConnectionState::Connecting;
    }

    /// A connection was established: the generation advances, so every reader
    /// spawned for an earlier connection is retired before the new reader
    /// starts.
    pub fn connection_established(&mut self) -> (reader_generation: u64)
        requires
            old(self).spec_generation() < u64::MAX,
        ensures
            final(self).spec_state() == ConnectionState::Connected,
            final(self).spec_generation() == old(self).spec_generation() + 1,
            final(self).spec_pending() == old(self).spec_pending(),
            final(self).spec_interim() == old(self).spec_interim(),
            final(self).spec_source_label() == old(self).spec_source_label(),
            reader_generation == final(self).spec_generation(),
            reader_generation > old(self).spec_generation(),
    {
        self.state = ConnectionState::Connected;
        self.generation = self.generation + 1;
        self.generation
    }

    /// Queue chunk metadata before the chunk is sent; the reader pops it when
    /// the correlated final result arrives.
    pub fn queue_chunk_info(&mut self, audio_start_ms: u64, audio_end_ms: u64, duration_ms: u64)
        ensures
            final(self).spec_pending() == old(self).spec_pending().push(PendingChunkInfo {
                audio_start_ms,
                audio_end_ms,
                duration_ms,
            }),
            final(self).spec_state() == old(self).spec_state(),
            final(self).spec_generation() == old(self).spec_generation(),
            final(self).spec_interim() == old(self).spec_interim(),
            final(self).spec_source_label() == old(self).spec_source_label(),
    {
        self.pending.push(PendingChunkInfo { audio_start_ms, audio_end_ms, duration_ms });
    }

    /// A send failed: the connection state and every buffer that could feed a
    /// stale emission are cleared before the reconnect.
    pub fn handle_send_failure(&mut self)
        ensures
            final(self).spec_state() == ConnectionState::Disconnected,
            final(self).spec_pending().len() == 0,
            final(self).spec_interim().len() == 0,
            final(self).spec_generation() == old(self).spec_generation(),
            final(self).spec_source_label() == old(self).spec_source_label(),
    {
        self.state = ConnectionState::Disconnected;
        self.pending.clear();
        self.interim_text = String::new();
    }

    /// Close the stream: state and buffers are cleared; the reader is awaited
    /// outside, bounded by `STREAM_CLOSE_TIMEOUT_MS`.
    pub fn close_persistent_stream(&mut self)
        ensures
            final(self).spec_state() == ConnectionState::Disconnected,
            final(self).spec_pending().len() == 0,
            final(self).spec_interim().len() == 0,
            final(self).spec_generation() == old(self).spec_generation(),
            final(self).spec_source_label() == old(self).spec_source_label(),
    {
        self.state = ConnectionState::Disconnected;
        self.pending.clear();
        self.interim_text = String::new();
    }

    /// Process one inbound message on behalf of a reader spawned with
    /// `reader_generation`.
    ///
    /// A superseded reader must never emit: when the live generation has
    /// moved past the reader's, nothing is emitted and nothing changes. A
    /// final result (or a natural-pause signal, treated as final) pops one
    /// pending chunk info — or falls back to zero timestamps when the queue
    /// is empty — and emits a final update; an interim result emits a partial
    /// update without popping, so the eventual final result uses the same
    /// metadata.
    pub fn reader_message(
        &mut self,
        reader_generation: u64,
        msg: ReaderMessage,
        log: &mut TranscriptLog,
    ) -> (r: ReaderOutcome)
        requires
            old(log).wf(),
            old(log).spec_next_sequence_id() < u64::MAX,
        ensures
            final(log).wf(),
            final(self).spec_generation() == old(self).spec_generation(),
            final(self).spec_state() == old(self).spec_state(),
            final(self).spec_source_label() == old(self).spec_source_label(),
            r == ReaderOutcome::Stale <==> reader_generation != old(self).spec_generation(),
            r == ReaderOutcome::Stale ==> *final(self) == *old(self) && *final(log)
                == *old(log),
            r == ReaderOutcome::Ignored <==> (reader_generation == old(self).spec_generation()
                && msg.text@.len() == 0),
            r == ReaderOutcome::Ignored ==> *final(self) == *old(self) && *final(log)
                == *old(log),
            r == ReaderOutcome::EmittedFinal <==> (reader_generation
                == old(self).spec_generation() && msg.text@.len() > 0
                && (msg.is_final || msg.speech_final)),
            r == ReaderOutcome::EmittedPartial <==> (reader_generation
                == old(self).spec_generation() && msg.text@.len() > 0
                && !(msg.is_final || msg.speech_final)),
            r == ReaderOutcome::EmittedFinal ==> {
                &&& final(self).spec_pending() == (if old(self).spec_pending().len() > 0 {
                    old(self).spec_pending().drop_first()
                } else {
                    old(self).spec_pending()
                })
                &&& final(self).spec_interim().len() == 0
            },
            r == ReaderOutcome::EmittedPartial ==> {
                &&& final(self).spec_pending() == old(self).spec_pending()
                &&& final(self).spec_interim() == msg.text@
            },
            (r == ReaderOutcome::EmittedFinal || r == ReaderOutcome::EmittedPartial) ==> {
                &&& final(log).spec_next_sequence_id() == old(log).spec_next_sequence_id() + 1
                &&& final(log).emitted().len() == old(log).emitted().len() + 1
                &&& final(log).emitted().subrange(0, old(log).emitted().len() as int)
                    == old(log).emitted()
                &&& {
                    let u = final(log).emitted().last();
                    let info = if old(self).spec_pending().len() > 0 {
                        old(self).spec_pending()[0]
                    } else {
                        PendingChunkInfo { audio_start_ms: 0, audio_end_ms: 0, duration_ms: 0 }
                    };
                    &&& u.text@ == msg.text@
                    &&& u.sequence_id == old(log).spec_next_sequence_id()
                    &&& u.is_partial == (r == ReaderOutcome::EmittedPartial)
                    &&& u.confidence_milli == msg.confidence_milli
                    &&& u.audio_start_ms == info.audio_start_ms
                    &&& u.audio_end_ms == info.audio_end_ms
                    &&& u.duration_ms == info.duration_ms
                    &&& u.chunk_start_ms == info.audio_start_ms
                    &&& u.source@ == "Audio"@
                    &&& u.timestamp@.len() == 8
                    &&& u.source_type == old(self).spec_source_label()
                }
            },
    {
        if reader_generation != self.generation {
            return ReaderOutcome::Stale;
        }
        if msg.text.as_str().is_empty() {
            return ReaderOutcome::Ignored;
        }
        let emit_final = msg.is_final || msg.speech_final;

        let info = if emit_final {
            self.interim_text = String::new();
            if self.pending.len() > 0 {
                self.pending.remove(0)
            } else {
                PendingChunkInfo { audio_start_ms: 0, audio_end_ms: 0, duration_ms: 0 }
            }
        } else {
            self.interim_text = msg.text.clone();
            if self.pending.len() > 0 {
                self.pending[0]
            } else {
                PendingChunkInfo { audio_start_ms: 0, audio_end_ms: 0, duration_ms: 0 }
            }
        };

        let source_type = match &self.source_label {
            Some(label) => Some(label.clone()),
            None => None,
        };

        let update = TranscriptUpdate {
            text: msg.text,
            timestamp: crate::worker::format_current_timestamp(),
            source: String::from_str("Audio"),
            sequence_id: 0,
            chunk_start_ms: info.audio_start_ms,
            is_partial: !emit_final,
            confidence_milli: msg.confidence_milli,
            audio_start_ms: info.audio_start_ms,
            audio_end_ms: info.audio_end_ms,
            duration_ms: info.duration_ms,
            source_type,
        };
        log.emit(update);

        if emit_final {
            ReaderOutcome::EmittedFinal
        } else {
            ReaderOutcome::EmittedPartial
        }
    }

    /// The length check made before a chunk is sent to the stream.
    pub fn streaming_precheck(samples: usize) -> (r: Result<(), TranscriptionError>)
        ensures
            r is Ok <==> samples >= MIN_TRANSCRIBE_SAMPLES,
            r matches Err(e) ==> e matches TranscriptionError::AudioTooShort {
                samples: s,
                minimum: m,
            } && s == samples && m == MIN_TRANSCRIBE_SAMPLES,
    {
        if samples < MIN_TRANSCRIBE_SAMPLES {
            Err(TranscriptionError::AudioTooShort {
                samples,
                minimum: MIN_TRANSCRIBE_SAMPLES,
            })
        } else {
            Ok(())
        }
    }

    /// The send policy: a failed send is retried exactly once, after cleanup
    /// and reconnect; a second failure is surfaced.
    pub fn send_step(send_ok: bool, prior_failures: u32) -> (r: SendStep)
        ensures
            send_ok ==> r == SendStep::Done,
            !send_ok && prior_failures == 0 ==> r == SendStep::CleanupAndRetry,
            !send_ok && prior_failures > 0 ==> r == SendStep::Fail,
    {
        if send_ok {
            SendStep::Done
        } else if prior_failures == 0 {
            SendStep::CleanupAndRetry
        } else {
            SendStep::Fail
        }
    }

    /// Whether another connection attempt is allowed: attempts are capped at
    /// `MAX_RECONNECT_ATTEMPTS`.
    pub fn may_attempt_connect(attempts_made: u32) -> (r: bool)
        ensures
            r == (attempts_made < MAX_RECONNECT_ATTEMPTS),
    {
        attempts_made < MAX_RECONNECT_ATTEMPTS
    }
}

/// Reconnect correctness: a reader spawned with any generation that was
/// current at or before a reconnect is stale once the reconnect completes, so
/// by `reader_message`'s contract it emits nothing and changes nothing; and
/// since the log's sequence ids are distinct, no update is ever emitted
/// twice.
pub proof fn lemma_reader_retired_by_reconnect(
    pre: StreamingConnection,
    post: StreamingConnection,
    reader_generation: u64,
)
    requires
        reader_generation <= pre.spec_generation(),
        post.spec_generation() > pre.spec_generation(),
    ensures
        reader_generation != post.spec_generation(),
{
}

} // verus!
