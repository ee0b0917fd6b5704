//! The worker's per-chunk decision: what to do with a provider's result.
//!
//! Recoverable failures (audio too short, model unloaded mid-session) skip the
//! chunk without surfacing an error; other failures surface as a per-chunk
//! warning; empty text is dropped silently; accepted text is filtered by the
//! provider family's confidence threshold and emitted as a transcript update
//! with a fresh sequence id. The chunk counts as completed in every case.

use vstd::prelude::*;
use crate::chunk::DeviceKind;
use crate::strutil::{spec_u64_digits, u64_to_string};
use crate::transcript::{TranscriptLog, TranscriptUpdate};

verus! {

/// Below this many samples a chunk is too short to transcribe (100 ms at
/// 16 kHz).
pub const MIN_TRANSCRIBE_SAMPLES: usize = 1600;

/// Cloud results below this confidence (in thousandths) are filtered.
pub const CLOUD_CONFIDENCE_THRESHOLD_MILLI: u32 = 10;

/// Confidence recorded for providers that report none (in thousandths).
pub const DEFAULT_CONFIDENCE_MILLI: u32 = 850;

/// Why a chunk could not be transcribed.
#[derive(Clone, Debug)]
pub enum TranscriptionError {
    /// Expected for trailing fragments; skipped silently.
    AudioTooShort { samples: usize, minimum: usize },
    /// Expected during provider swap or unload races; skipped silently.
    ModelNotLoaded,
    /// Backend-specific failure; surfaced as a per-chunk warning.
    EngineFailed(String),
}

impl TranscriptionError {
    /// Whether the worker skips the chunk without surfacing anything.
    pub open spec fn is_recoverable(self) -> bool {
        self is AudioTooShort || self is ModelNotLoaded
    }

    /// The error's description.
    pub open spec fn spec_message(self) -> Seq<char> {
        match self {
            TranscriptionError::AudioTooShort { samples, minimum } => "audio too short: "@
                + spec_u64_digits(samples as int) + " samples, minimum "@
                + spec_u64_digits(minimum as int),
            TranscriptionError::ModelNotLoaded => "transcription model not loaded"@,
            TranscriptionError::EngineFailed(detail) => "transcription engine failed: "@
                + detail@,
        }
    }

    /// Render the error for a warning event.
    pub fn message(&self) -> (r: String)
        ensures
            r@ == self.spec_message(),
    {
        match self {
            TranscriptionError::AudioTooShort { samples, minimum } => {
                let mut s = String::from_str("audio too short: ");
                s.append(u64_to_string(*samples as u64).as_str());
                s.append(" samples, minimum ");
                s.append(u64_to_string(*minimum as u64).as_str());
                s
            },
            TranscriptionError::ModelNotLoaded => String::from_str(
                "transcription model not loaded"),
            TranscriptionError::EngineFailed(detail) => {
                let mut s = String::from_str("transcription engine failed: ");
                s.append(detail.as_str());
                s
            },
        }
    }
}

/// What a provider returns for one chunk. `text` is taken as already trimmed
/// at the provider edge; confidence is in thousandths where reported.
#[derive(Clone, Debug)]
pub struct TranscriptResult {
    pub text: String,
    pub confidence_milli: Option<u32>,
    pub is_partial: bool,
}

/// The two provider families the worker filters differently: local models
/// report no confidence and are accepted unconditionally; cloud streams
/// report one and are filtered at a small positive threshold.
#[derive(Clone, Copy, Debug, PartialEq, Eq, Structural)]
pub enum ProviderFamily {
    LocalModel,
    CloudStream,
}

/// The confidence threshold (in thousandths) for a provider family.
pub fn confidence_threshold_milli(family: ProviderFamily) -> (r: u32)
    ensures
        family == ProviderFamily::LocalModel ==> r == 0,
        family == ProviderFamily::CloudStream ==> r == CLOUD_CONFIDENCE_THRESHOLD_MILLI,
{
    match family {
        ProviderFamily::LocalModel => 0,
        ProviderFamily::CloudStream => CLOUD_CONFIDENCE_THRESHOLD_MILLI,
    }
}

/// Confidence recorded in the update: the reported one, or the default.
pub open spec fn spec_recorded_confidence(c: Option<u32>) -> u32 {
    match c {
        Some(v) => v,
        None => DEFAULT_CONFIDENCE_MILLI,
    }
}

/// A result passes the confidence filter when it reports no confidence, or
/// one at least the family's threshold.
pub open spec fn spec_meets_threshold(c: Option<u32>, family: ProviderFamily) -> bool {
    match c {
        Some(v) => {
            &&& (family == ProviderFamily::LocalModel ==> v >= 0)
            &&& (family == ProviderFamily::CloudStream ==> v
                >= CLOUD_CONFIDENCE_THRESHOLD_MILLI)
        },
        None => true,
    }
}

/// Speaker attribution for a device: the microphone is the user, system audio
/// the interlocutor, mixed audio no single speaker.
pub open spec fn spec_source_type(device: DeviceKind) -> Option<Seq<char>> {
    match device {
        DeviceKind::Microphone => Some("user"@),
        DeviceKind::System => Some("interlocutor"@),
        DeviceKind::Mixed => None,
    }
}

/// An accepted result: non-empty text that passes the confidence filter.
pub open spec fn spec_accepted(res: TranscriptResult, family: ProviderFamily) -> bool {
    res.text@.len() > 0 && spec_meets_threshold(res.confidence_milli, family)
}

/// What the worker did with one chunk's result.
#[derive(Clone, Debug)]
pub enum WorkerAction {
    /// A transcript update was emitted; `first_speech` marks the session's
    /// first accepted transcript, which triggers the one-time
    /// speech-detected notification.
    Emitted { first_speech: bool },
    /// Empty text: dropped silently.
    SkippedEmpty,
    /// Below the confidence threshold: dropped silently.
    FilteredLowConfidence,
    /// Audio too short or model unloaded: skipped, not surfaced.
    SkippedRecoverable,
    /// Another failure: surfaced as a non-fatal warning, session continues.
    Warned(TranscriptionError),
}

/// Per-session worker state: the one-time speech-detected flag.
pub struct WorkerContext {
    speech_detected: bool,
}

impl WorkerContext {
    /// Whether an accepted transcript has already been seen this session.
    pub closed spec fn spec_speech_detected(self) -> bool {
        self.speech_detected
    }

    /// A fresh context for a new recording session.
    pub fn new() -> (r: Self)
        ensures
            !r.spec_speech_detected(),
    {
        WorkerContext { speech_detected: false }
    }

    /// Reset the speech-detected flag for a new recording session.
    pub fn reset_speech_detected_flag(&mut self)
        ensures
            !final(self).spec_speech_detected(),
    {
        self.speech_detected = false;
    }

    /// Decide what to do with one chunk's transcription outcome, and emit an
    /// update to the log when the result is accepted.
    ///
    /// `chunk_timestamp_ms` and `chunk_duration_ms` are the processed chunk's
    /// recording-relative start and length; `device` drives speaker
    /// attribution.
    pub fn handle_transcription(
        &mut self,
        outcome: Result<TranscriptResult, TranscriptionError>,
        family: ProviderFamily,
        chunk_timestamp_ms: u64,
        chunk_duration_ms: u64,
        device: DeviceKind,
        log: &mut TranscriptLog,
    ) -> (r: WorkerAction)
        requires
            old(log).wf(),
            old(log).spec_next_sequence_id() < u64::MAX,
            chunk_timestamp_ms + chunk_duration_ms <= u64::MAX,
        ensures
            final(log).wf(),
            (r matches WorkerAction::Emitted { first_speech })
                <==> (outcome matches Ok(res) && spec_accepted(res, family)),
            r matches WorkerAction::Emitted { first_speech } ==> (first_speech
                == !old(self).spec_speech_detected()),
            outcome matches Ok(res) ==> {
                &&& (r is SkippedEmpty <==> res.text@.len() == 0)
                &&& (r is FilteredLowConfidence <==> (res.text@.len() > 0
                    && !spec_meets_threshold(res.confidence_milli, family)))
            },
            outcome matches Err(e) ==> {
                &&& (r is SkippedRecoverable <==> e.is_recoverable())
                &&& (r matches WorkerAction::Warned(w) ==> w == e)
                &&& (!e.is_recoverable() ==> (r matches WorkerAction::Warned(w) && w == e))
            },
            // nothing is emitted and the flag is untouched unless accepted
            !(r is Emitted) ==> {
                &&& *final(log) == *old(log)
                &&& final(self).spec_speech_detected() == old(self).spec_speech_detected()
            },
            // the accepted case emits exactly one update, pinned field by field
            outcome matches Ok(res) ==> spec_accepted(res, family) ==> {
                &&& final(self).spec_speech_detected()
                &&& final(log).spec_next_sequence_id()
                    == old(log).spec_next_sequence_id() + 1
                &&& final(log).emitted().len() == old(log).emitted().len() + 1
                &&& final(log).emitted().subrange(0, old(log).emitted().len() as int)
                    == old(log).emitted()
                &&& {
                    let u = final(log).emitted().last();
                    &&& u.text@ == res.text@
                    &&& u.sequence_id == old(log).spec_next_sequence_id()
                    &&& u.is_partial == res.is_partial
                    &&& u.confidence_milli == spec_recorded_confidence(res.confidence_milli)
                    &&& u.audio_start_ms == chunk_timestamp_ms
                    &&& u.audio_end_ms == chunk_timestamp_ms + chunk_duration_ms
                    &&& u.duration_ms == chunk_duration_ms
                    &&& u.chunk_start_ms == chunk_timestamp_ms
                    &&& u.source@ == "Audio"@
                    &&& u.timestamp@.len() == 8
                    &&& (match u.source_type {
                        Some(s) => spec_source_type(device) matches Some(t) && s@ == t,
                        None => spec_source_type(device) is None,
                    })
                }
            },
    {
        match outcome {
            Err(e) => {
                match e {
                    TranscriptionError::AudioTooShort { .. } => WorkerAction::SkippedRecoverable,
                    TranscriptionError::ModelNotLoaded => WorkerAction::SkippedRecoverable,
                    TranscriptionError::EngineFailed(detail) => WorkerAction::Warned(
                        TranscriptionError::EngineFailed(detail)),
                }
            },
            Ok(res) => {
                if res.text.as_str().is_empty() {
                    return WorkerAction::SkippedEmpty;
                }
                let threshold = confidence_threshold_milli(family);
                let meets = match res.confidence_milli {
                    Some(v) => v >= threshold,
                    None => true,
                };
                if !meets {
                    return WorkerAction::FilteredLowConfidence;
                }
                let first_speech = !self.speech_detected;
                self.speech_detected = true;

                let confidence = match res.confidence_milli {
                    Some(v) => v,
                    None => DEFAULT_CONFIDENCE_MILLI,
                };
                let source_type: Option<String> = match device {
                    DeviceKind::Microphone => Some(String::from_str("user")),
                    DeviceKind::System => Some(String::from_str("interlocutor")),
                    DeviceKind::Mixed => None,
                };
                let update = TranscriptUpdate {
                    text: res.text,
                    timestamp: format_current_timestamp(),
                    source: String::from_str("Audio"),
                    sequence_id: 0,
                    chunk_start_ms: chunk_timestamp_ms,
                    is_partial: res.is_partial,
                    confidence_milli: confidence,
                    audio_start_ms: chunk_timestamp_ms,
                    audio_end_ms: chunk_timestamp_ms + chunk_duration_ms,
                    duration_ms: chunk_duration_ms,
                    source_type,
                };
                log.emit(update);
                WorkerAction::Emitted { first_speech }
            },
        }
    }
}

/// The empty-chunk check made before a provider is called: an empty chunk is
/// reported as too-short audio rather than handed to the backend.
pub fn pre_transcribe_check(samples: usize) -> (r: Result<(), TranscriptionError>)
    ensures
        r is Ok <==> samples > 0,
        r matches Err(e) ==> e matches TranscriptionError::AudioTooShort {
            samples: s,
            minimum: m,
        } && s == 0 && m == MIN_TRANSCRIBE_SAMPLES,
{
    if samples == 0 {
        Err(TranscriptionError::AudioTooShort { samples: 0, minimum: MIN_TRANSCRIBE_SAMPLES })
    } else {
        Ok(())
    }
}

/// The wall-clock time of emission, rendered "HH:MM:SS".
///
/// Relies on chrono's `Local::now` and `format`: the fixed-width specifiers
/// `%H`, `%M` and `%S` each render two digits, so the result is always eight
/// characters. The value depends on the clock, so nothing more is promised.
#[verifier::external_body]
pub fn format_current_timestamp() -> (r: String)
    ensures
        r@.len() == 8,
{
    chrono::Local::now().format("%H:%M:%S").to_string()
}

} // verus!
