//! The recording lifecycle: the top-level state machine that owns the
//! pipeline.
//!
//! Only one session is active at a time. `start` fails fast — with no side
//! effects — when a session is already active, the transcription model is not
//! ready, or no microphone can be resolved. The stop protocol is staged and
//! every potentially unbounded wait in it has an explicit ceiling; whatever
//! fails along the way, the session reaches `Idle`.

use vstd::prelude::*;
use crate::tracker::CompletionTracker;

verus! {

/// Ceiling on waiting for the worker pool to drain at stop.
pub const DRAIN_TIMEOUT_MS: u64 = 600000;

/// Ceiling on configuration lookups during shutdown.
pub const CONFIG_FETCH_TIMEOUT_MS: u64 = 30000;

/// Ceiling on the final save during shutdown.
pub const FINAL_SAVE_TIMEOUT_MS: u64 = 300000;

/// Retries of the completion-count verification before residual loss is
/// declared.
pub const MAX_VERIFICATION_ATTEMPTS: u32 = 10;

/// Spacing between completion-count verification retries.
pub const VERIFICATION_RETRY_SPACING_MS: u64 = 100;

/// The lifecycle states. `Recording` and `Paused` alternate; `Stopping` runs
/// the shutdown protocol and always ends in `Idle`.
#[derive(Clone, Copy, Debug, PartialEq, Eq, Structural)]
pub enum RecordingState {
    Idle,
    Recording,
    Paused,
    Stopping,
}

/// Why a session could not start. All of these leave the lifecycle untouched.
#[derive(Clone, Copy, Debug, PartialEq, Eq, Structural)]
pub enum StartError {
    /// A session is already active.
    AlreadyRecording,
    /// The transcription model is not ready; starting anyway would silently
    /// produce no transcripts.
    ModelNotReady,
    /// No microphone could be resolved; fatal, unlike missing system audio.
    MicrophoneUnavailable,
}

impl StartError {
    /// The user-facing message.
    pub fn message(&self) -> (r: String)
        ensures
            *self == StartError::AlreadyRecording ==> r@
                == "Recording already in progress"@,
            *self == StartError::ModelNotReady ==> r@
                == "Transcription model is not ready"@,
            *self == StartError::MicrophoneUnavailable ==> r@
                == "No microphone device available"@,
    {
        match self {
            StartError::AlreadyRecording => String::from_str("Recording already in progress"),
            StartError::ModelNotReady => String::from_str("Transcription model is not ready"),
            StartError::MicrophoneUnavailable => String::from_str(
                "No microphone device available"),
        }
    }
}

/// Why a pause or resume was refused; the lifecycle is left untouched.
#[derive(Clone, Copy, Debug, PartialEq, Eq, Structural)]
pub enum PauseError {
    NotRecording,
    AlreadyPaused,
    NotPaused,
}

/// What `start` set up.
#[derive(Clone, Debug)]
pub struct StartOutcome {
    /// System audio could not be resolved; the session continues with the
    /// microphone only.
    pub system_audio_degraded: bool,
}

/// Answer to a stop request.
#[derive(Clone, Copy, Debug, PartialEq, Eq, Structural)]
pub enum StopBegin {
    /// Nothing was recording: success immediately, no lifecycle events.
    AlreadyIdle,
    /// The shutdown protocol begins.
    Begin,
}

/// The staged shutdown progress reported to the host layer.
#[derive(Clone, Copy, Debug, PartialEq, Eq, Structural)]
pub enum ShutdownStage {
    StoppingAudio,
    ProcessingTranscripts,
    UnloadingModel,
    Finalizing,
    Complete,
}

/// The progress value (0 to 100) reported for each shutdown stage.
pub fn stage_progress(stage: ShutdownStage) -> (r: u8)
    ensures
        stage == ShutdownStage::StoppingAudio ==> r == 20,
        stage == ShutdownStage::ProcessingTranscripts ==> r == 40,
        stage == ShutdownStage::UnloadingModel ==> r == 70,
        stage == ShutdownStage::Finalizing ==> r == 90,
        stage == ShutdownStage::Complete ==> r == 100,
{
    match stage {
        ShutdownStage::StoppingAudio => 20,
        ShutdownStage::ProcessingTranscripts => 40,
        ShutdownStage::UnloadingModel => 70,
        ShutdownStage::Finalizing => 90,
        ShutdownStage::Complete => 100,
    }
}

/// The final loss summary, always emitted at stop, whatever the outcome.
#[derive(Clone, Copy, Debug, PartialEq, Eq, Structural)]
pub enum LossReport {
    /// Every queued chunk completed.
    ZeroLoss { completed: u64 },
    /// Counters balance, but some chunks were dropped under backpressure.
    PartialLoss { completed: u64, dropped: u64 },
    /// Counters never balanced within the retry budget: chunks were lost in
    /// processing.
    ProcessingLoss { queued: u64, completed: u64, dropped: u64, lost: u64 },
}

/// Chunks neither completed nor dropped, if the counters do not balance.
pub open spec fn spec_processing_loss(t: CompletionTracker) -> u64 {
    if t.chunks_queued >= t.chunks_completed + t.chunks_dropped {
        (t.chunks_queued - t.chunks_completed - t.chunks_dropped) as u64
    } else {
        0u64
    }
}

/// One round of the completion-count verification: `Some` report once the
/// counters balance, `None` while stragglers may still be completing.
pub fn classify_completion(t: &CompletionTracker) -> (r: Option<LossReport>)
    ensures
        r is Some <==> t.spec_balanced(),
        t.spec_balanced() && t.chunks_dropped == 0 ==> r == Some(LossReport::ZeroLoss {
            completed: t.chunks_completed,
        }),
        t.spec_balanced() && t.chunks_dropped > 0 ==> r == Some(LossReport::PartialLoss {
            completed: t.chunks_completed,
            dropped: t.chunks_dropped,
        }),
{
    if t.is_balanced() {
        if t.chunks_dropped == 0 {
            Some(LossReport::ZeroLoss { completed: t.chunks_completed })
        } else {
            Some(LossReport::PartialLoss {
                completed: t.chunks_completed,
                dropped: t.chunks_dropped,
            })
        }
    } else {
        None
    }
}

/// Whether the verification loop waits another round for stragglers.
pub fn should_retry_verification(t: &CompletionTracker, attempts_made: u32) -> (r: bool)
    ensures
        r == (!t.spec_balanced() && attempts_made < MAX_VERIFICATION_ATTEMPTS),
{
    !t.is_balanced() && attempts_made < MAX_VERIFICATION_ATTEMPTS
}

/// The report once the retry budget is spent: balanced counters give the
/// zero-loss or partial-loss summary; anything else is declared processing
/// loss, itemized.
pub fn final_loss_report(t: &CompletionTracker) -> (r: LossReport)
    ensures
        t.spec_balanced() && t.chunks_dropped == 0 ==> r == (LossReport::ZeroLoss {
            completed: t.chunks_completed,
        }),
        t.spec_balanced() && t.chunks_dropped > 0 ==> r == (LossReport::PartialLoss {
            completed: t.chunks_completed,
            dropped: t.chunks_dropped,
        }),
        !t.spec_balanced() ==> r == (LossReport::ProcessingLoss {
            queued: t.chunks_queued,
            completed: t.chunks_completed,
            dropped: t.chunks_dropped,
            lost: spec_processing_loss(*t),
        }),
{
    match classify_completion(t) {
        Some(report) => report,
        None => {
            let accounted = if t.chunks_completed <= u64::MAX - t.chunks_dropped {
                t.chunks_completed + t.chunks_dropped
            } else {
                u64::MAX
            };
            let lost = if t.chunks_queued >= accounted {
                t.chunks_queued - accounted
            } else {
                0
            };
            proof {
                assert(lost == spec_processing_loss(*t));
            }
            LossReport::ProcessingLoss {
                queued: t.chunks_queued,
                completed: t.chunks_completed,
                dropped: t.chunks_dropped,
                lost,
            }
        },
    }
}

/// The top-level coordinator; owns the session's state.
pub struct RecordingLifecycle {
    state: RecordingState,
    meeting_name: Option<String>,
}

impl RecordingLifecycle {
    /// The current lifecycle state.
    pub closed spec fn spec_state(self) -> RecordingState {
        self.state
    }

    /// The current session's meeting name.
    pub closed spec fn spec_meeting_name(self) -> Option<String> {
        self.meeting_name
    }

    /// A fresh coordinator with no session.
    pub fn new() -> (r: Self)
        ensures
            r.spec_state() == RecordingState::Idle,
            r.spec_meeting_name() is None,
    {
        RecordingLifecycle { state: RecordingState::Idle, meeting_name: None }
    }

    /// Whether a recording session is active (recording, paused, or still
    /// shutting down).
    pub fn is_recording_active(&self) -> (r: bool)
        ensures
            r == (self.spec_state() != RecordingState::Idle),
    {
        match self.state {
            RecordingState::Idle => false,
            _ => true,
        }
    }

    /// Start a session.
    ///
    /// `model_ready` is the outcome of validating the active provider;
    /// `microphone` and `system_audio` are the resolved device names, `None`
    /// where resolution failed. A missing microphone is fatal; missing system
    /// audio degrades the session to microphone only. Every failure leaves
    /// the lifecycle exactly as it was.
    pub fn start_recording(
        &mut self,
        model_ready: bool,
        microphone: Option<String>,
        system_audio: Option<String>,
        meeting_name: Option<String>,
    ) -> (r: Result<StartOutcome, StartError>)
        ensures
            r is Err <==> (old(self).spec_state() != RecordingState::Idle || !model_ready
                || microphone is None),
            r is Err ==> *final(self) == *old(self),
            old(self).spec_state() != RecordingState::Idle ==> r
                == Err::<StartOutcome, StartError>(StartError::AlreadyRecording),
            old(self).spec_state() == RecordingState::Idle && !model_ready ==> r
                == Err::<StartOutcome, StartError>(StartError::ModelNotReady),
            old(self).spec_state() == RecordingState::Idle && model_ready
                && microphone is None ==> r
                == Err::<StartOutcome, StartError>(StartError::MicrophoneUnavailable),
            r matches Ok(outcome) ==> {
                &&& final(self).spec_state() == RecordingState::Recording
                &&& final(self).spec_meeting_name() == meeting_name
                &&& outcome.system_audio_degraded == (system_audio is None)
            },
    {
        match self.state {
            RecordingState::Idle => {},
            _ => {
                return Err(StartError::AlreadyRecording);
            },
        }
        if !model_ready {
            return Err(StartError::ModelNotReady);
        }
        if microphone.is_none() {
            return Err(StartError::MicrophoneUnavailable);
        }
        self.state = RecordingState::Recording;
        self.meeting_name = meeting_name;
        Ok(StartOutcome { system_audio_degraded: system_audio.is_none() })
    }

    /// Pause the session: only mutes the capture, the pipeline stays up.
    pub fn pause_recording(&mut self) -> (r: Result<(), PauseError>)
        ensures
            r is Ok <==> old(self).spec_state() == RecordingState::Recording,
            r is Ok ==> final(self).spec_state() == RecordingState::Paused,
            r is Err ==> *final(self) == *old(self),
            old(self).spec_state() == RecordingState::Paused ==> r
                == Err::<(), PauseError>(PauseError::AlreadyPaused),
            (old(self).spec_state() == RecordingState::Idle || old(self).spec_state()
                == RecordingState::Stopping) ==> r == Err::<(), PauseError>(
                PauseError::NotRecording),
            final(self).spec_meeting_name() == old(self).spec_meeting_name(),
    {
        match self.state {
            RecordingState::Recording => {
                self.state = RecordingState::Paused;
                Ok(())
            },
            RecordingState::Paused => Err(PauseError::AlreadyPaused),
            _ => Err(PauseError::NotRecording),
        }
    }

    /// Resume a paused session.
    pub fn resume_recording(&mut self) -> (r: Result<(), PauseError>)
        ensures
            r is Ok <==> old(self).spec_state() == RecordingState::Paused,
            r is Ok ==> final(self).spec_state() == RecordingState::Recording,
            r is Err ==> *final(self) == *old(self),
            old(self).spec_state() == RecordingState::Recording ==> r
                == Err::<(), PauseError>(PauseError::NotPaused),
            (old(self).spec_state() == RecordingState::Idle || old(self).spec_state()
                == RecordingState::Stopping) ==> r == Err::<(), PauseError>(
                PauseError::NotRecording),
            final(self).spec_meeting_name() == old(self).spec_meeting_name(),
    {
        match self.state {
            RecordingState::Paused => {
                self.state = RecordingState::Recording;
                Ok(())
            },
            RecordingState::Recording => Err(PauseError::NotPaused),
            _ => Err(PauseError::NotRecording),
        }
    }

    /// Ask to stop.
    ///
    /// Stopping while idle is success immediately, with no state change and
    /// no lifecycle events; otherwise the shutdown protocol begins and the
    /// state moves to `Stopping`.
    pub fn begin_stop(&mut self) -> (r: StopBegin)
        ensures
            r == StopBegin::AlreadyIdle <==> old(self).spec_state() == RecordingState::Idle,
            r == StopBegin::AlreadyIdle ==> *final(self) == *old(self),
            r == StopBegin::Begin ==> final(self).spec_state() == RecordingState::Stopping
                && final(self).spec_meeting_name() == old(self).spec_meeting_name(),
    {
        match self.state {
            RecordingState::Idle => StopBegin::AlreadyIdle,
            _ => {
                self.state = RecordingState::Stopping;
                StopBegin::Begin
            },
        }
    }

    /// Finish the shutdown protocol. Whatever failed along the way — saves,
    /// config lookups, model unload — the session ends in `Idle`.
    pub fn finish_stop(&mut self)
        ensures
            final(self).spec_state() == RecordingState::Idle,
            final(self).spec_meeting_name() is None,
    {
        self.state = RecordingState::Idle;
        self.meeting_name = None;
    }
}

} // verus!
