//! The pipeline end to end: accumulation, dispatch, worker gating, emission
//! order, streaming generations and the lifecycle.

use maity_core::accumulator::ChunkAccumulator;
use maity_core::chunk::{AudioChunk, DeviceKind};
use maity_core::dispatcher::{DispatchOutcome, Dispatcher};
use maity_core::lifecycle::{
    classify_completion, final_loss_report, should_retry_verification, stage_progress,
    LossReport, PauseError, RecordingLifecycle, ShutdownStage, StartError, StopBegin,
};
use maity_core::streaming::{
    ConnectionState, ReaderMessage, ReaderOutcome, SendStep, StreamingConnection,
};
use maity_core::tracker::CompletionTracker;
use maity_core::transcript::TranscriptLog;
use maity_core::worker::{
    confidence_threshold_milli, pre_transcribe_check, ProviderFamily, TranscriptResult,
    TranscriptionError, WorkerAction, WorkerContext,
};

fn mic_chunk(id: u64, timestamp_ms: u64, samples: usize) -> AudioChunk {
    AudioChunk {
        samples: vec![0u32; samples],
        sample_rate: 16000,
        timestamp_ms,
        chunk_id: id,
        device: DeviceKind::Microphone,
    }
}

fn ok_text(text: &str, confidence_milli: Option<u32>) -> Result<TranscriptResult, TranscriptionError> {
    Ok(TranscriptResult {
        text: text.to_string(),
        confidence_milli,
        is_partial: false,
    })
}

#[test]
fn accumulator_holds_short_audio_and_flushes_at_minimum() {
    // 1.0 s minimum: five 0.2 s chunks accumulate, the fifth flushes.
    let mut acc = ChunkAccumulator::new(1000, 5000, 1000, 0);
    for i in 0..4u64 {
        let out = acc.add(mic_chunk(i, i * 200, 3200), i * 200);
        assert!(out.is_none());
    }
    let merged = acc.add(mic_chunk(4, 800, 3200), 800).expect("reaches 1.0 s");
    assert_eq!(merged.samples.len(), 16000);
    assert_eq!(merged.timestamp_ms, 0);
    assert_eq!(merged.chunk_id, 0);
    assert_eq!(merged.device, DeviceKind::Microphone);
    // emitted by `add`, so its duration meets the minimum
    assert!(merged.samples.len() as u64 * 1000 / 16000 >= 1000);
}

#[test]
fn accumulator_timeout_flush_respects_half_second_floor() {
    // 0.6 s buffered, silence past the 1000 ms timeout: flushed.
    let mut acc = ChunkAccumulator::new(3000, 8000, 1000, 0);
    assert!(acc.add(mic_chunk(0, 0, 9600), 0).is_none());
    assert!(acc.check_timeout(999).is_none(), "timeout not reached yet");
    let flushed = acc.check_timeout(1000).expect("0.6 s flushes after the timeout");
    assert_eq!(flushed.samples.len(), 9600);

    // 0.3 s buffered: below the 0.5 s floor, never flushed by the timeout.
    let mut acc = ChunkAccumulator::new(3000, 8000, 1000, 0);
    assert!(acc.add(mic_chunk(0, 0, 4800), 0).is_none());
    assert!(acc.check_timeout(5000).is_none(), "0.3 s stays below the floor");
    // the shutdown flush still drains it
    let drained = acc.flush().expect("flush drains any remainder");
    assert_eq!(drained.samples.len(), 4800);
}

#[test]
fn backpressure_drop_is_counted_not_silent() {
    let mut d = Dispatcher::new(2, 1000, 5000, 1000, 0);
    assert_eq!(d.dispatch_accumulated(mic_chunk(0, 0, 16000)), DispatchOutcome::Queued);
    assert_eq!(d.dispatch_accumulated(mic_chunk(1, 1000, 16000)), DispatchOutcome::Queued);
    // queue full and the consumer stalled: exactly one chunk dropped,
    // queued still incremented for the attempted chunk
    assert_eq!(d.dispatch_accumulated(mic_chunk(2, 2000, 16000)), DispatchOutcome::DroppedFull);
    let t = d.tracker();
    assert_eq!(t.chunks_queued, 3);
    assert_eq!(t.chunks_dropped, 1);
    assert_eq!(t.chunks_completed, 0);
    assert_eq!(d.queue_len(), 2);
}

#[test]
fn end_to_end_ten_chunks_two_accumulated_zero_dropped() {
    // Ten 0.2 s microphone chunks with a 1.0 s minimum and 5.0 s maximum:
    // chunk 5 completes the first 1.0 s window and chunk 10 the second, by
    // the flush-at-minimum rule; the shutdown flush finds nothing left over.
    let mut d = Dispatcher::new(2000, 1000, 5000, 1000, 0);
    let mut emitted = 0;
    for i in 0..10u64 {
        let now = i * 200;
        if d.ingest(mic_chunk(i, now, 3200), now).is_some() {
            emitted += 1;
        }
    }
    assert_eq!(emitted, 2, "chunks 5 and 10 each complete a 1.0 s window");
    let (mic_flush, sys_flush) = d.finish_input();
    assert_eq!(mic_flush, None, "nothing was left buffered at shutdown");
    assert_eq!(sys_flush, None);
    assert_eq!(d.tracker().chunks_queued, 2);

    // one worker drains the queue
    let first = d.take_chunk().expect("first accumulated chunk");
    assert_eq!(first.samples.len(), 16000);
    assert_eq!(first.timestamp_ms, 0);
    d.complete_in_flight();
    let second = d.take_chunk().expect("second accumulated chunk");
    assert_eq!(second.samples.len(), 16000);
    assert_eq!(second.timestamp_ms, 1000);
    d.complete_in_flight();
    assert!(d.take_chunk().is_none());

    let t = d.tracker();
    assert_eq!(t.chunks_queued, 2);
    assert_eq!(t.chunks_completed, 2);
    assert_eq!(t.chunks_dropped, 0);
    assert!(t.is_balanced());
    assert!(t.input_finished);
}

#[test]
fn mixed_audio_bypasses_accumulation() {
    let mut d = Dispatcher::new(10, 1000, 5000, 1000, 0);
    let mut mixed = mic_chunk(0, 0, 100);
    mixed.device = DeviceKind::Mixed;
    assert_eq!(d.ingest(mixed, 0), Some(DispatchOutcome::Queued));
    assert_eq!(d.queue_len(), 1);
    assert_eq!(d.take_chunk().unwrap().samples.len(), 100);
}

#[test]
fn counters_balance_once_drained() {
    let mut d = Dispatcher::new(10, 1000, 5000, 1000, 0);
    for i in 0..5u64 {
        d.dispatch_accumulated(mic_chunk(i, i * 1000, 16000));
    }
    while let Some(_c) = d.take_chunk() {
        d.complete_in_flight();
    }
    let t = d.tracker();
    assert_eq!(t.chunks_queued, t.chunks_completed + t.chunks_dropped);
}

#[test]
fn worker_emits_ordered_sequence_ids() {
    let mut log = TranscriptLog::new();
    let mut ctx = WorkerContext::new();
    for i in 0..4u64 {
        let action = ctx.handle_transcription(
            ok_text("hola", Some(900)),
            ProviderFamily::CloudStream,
            i * 1000,
            1000,
            DeviceKind::Microphone,
            &mut log,
        );
        assert!(matches!(action, WorkerAction::Emitted { .. }));
    }
    let updates = log.updates();
    assert_eq!(updates.len(), 4);
    for w in updates.windows(2) {
        assert!(w[0].sequence_id < w[1].sequence_id, "emission order is id order");
    }
    let ids: Vec<u64> = updates.iter().map(|u| u.sequence_id).collect();
    let mut deduped = ids.clone();
    deduped.dedup();
    assert_eq!(ids, deduped, "no duplicate sequence ids");
}

#[test]
fn worker_gates_empty_low_confidence_and_errors() {
    let mut log = TranscriptLog::new();
    let mut ctx = WorkerContext::new();

    let a = ctx.handle_transcription(
        ok_text("", None),
        ProviderFamily::CloudStream,
        0,
        1000,
        DeviceKind::Microphone,
        &mut log,
    );
    assert!(matches!(a, WorkerAction::SkippedEmpty));

    let a = ctx.handle_transcription(
        ok_text("texto", Some(5)),
        ProviderFamily::CloudStream,
        0,
        1000,
        DeviceKind::Microphone,
        &mut log,
    );
    assert!(matches!(a, WorkerAction::FilteredLowConfidence));

    // a local model reports no confidence and is accepted unconditionally
    let a = ctx.handle_transcription(
        ok_text("texto", None),
        ProviderFamily::LocalModel,
        0,
        1000,
        DeviceKind::System,
        &mut log,
    );
    match a {
        WorkerAction::Emitted { first_speech } => assert!(first_speech),
        other => panic!("expected emission, got {:?}", other),
    }

    let a = ctx.handle_transcription(
        Err(TranscriptionError::AudioTooShort { samples: 10, minimum: 1600 }),
        ProviderFamily::LocalModel,
        0,
        1000,
        DeviceKind::Microphone,
        &mut log,
    );
    assert!(matches!(a, WorkerAction::SkippedRecoverable));

    let a = ctx.handle_transcription(
        Err(TranscriptionError::ModelNotLoaded),
        ProviderFamily::LocalModel,
        0,
        1000,
        DeviceKind::Microphone,
        &mut log,
    );
    assert!(matches!(a, WorkerAction::SkippedRecoverable));

    let a = ctx.handle_transcription(
        Err(TranscriptionError::EngineFailed("socket closed".to_string())),
        ProviderFamily::LocalModel,
        0,
        1000,
        DeviceKind::Microphone,
        &mut log,
    );
    match a {
        WorkerAction::Warned(TranscriptionError::EngineFailed(m)) => {
            assert_eq!(m, "socket closed")
        },
        other => panic!("expected warning, got {:?}", other),
    }

    assert_eq!(log.len(), 1, "only the accepted result was emitted");
    let u = &log.updates()[0];
    assert_eq!(u.text, "texto");
    assert_eq!(u.confidence_milli, 850, "default confidence when none reported");
    assert_eq!(u.source_type.as_deref(), Some("interlocutor"));
    assert_eq!(u.audio_start_ms, 0);
    assert_eq!(u.audio_end_ms, 1000);
    assert_eq!(u.timestamp.len(), 8);
}

#[test]
fn worker_speech_detected_fires_once_per_session() {
    let mut log = TranscriptLog::new();
    let mut ctx = WorkerContext::new();
    let first = ctx.handle_transcription(
        ok_text("uno", None),
        ProviderFamily::LocalModel,
        0,
        500,
        DeviceKind::Microphone,
        &mut log,
    );
    let second = ctx.handle_transcription(
        ok_text("dos", None),
        ProviderFamily::LocalModel,
        500,
        500,
        DeviceKind::Microphone,
        &mut log,
    );
    assert!(matches!(first, WorkerAction::Emitted { first_speech: true }));
    assert!(matches!(second, WorkerAction::Emitted { first_speech: false }));
    ctx.reset_speech_detected_flag();
    let after_reset = ctx.handle_transcription(
        ok_text("tres", None),
        ProviderFamily::LocalModel,
        1000,
        500,
        DeviceKind::Microphone,
        &mut log,
    );
    assert!(matches!(after_reset, WorkerAction::Emitted { first_speech: true }));
}

#[test]
fn worker_error_messages_are_exact() {
    let e = TranscriptionError::AudioTooShort { samples: 7, minimum: 1600 };
    assert_eq!(e.message(), "audio too short: 7 samples, minimum 1600");
    assert_eq!(TranscriptionError::ModelNotLoaded.message(), "transcription model not loaded");
    let e = TranscriptionError::EngineFailed("boom".to_string());
    assert_eq!(e.message(), "transcription engine failed: boom");
    assert_eq!(confidence_threshold_milli(ProviderFamily::CloudStream), 10);
    assert_eq!(confidence_threshold_milli(ProviderFamily::LocalModel), 0);
    assert!(pre_transcribe_check(1).is_ok());
    assert!(matches!(
        pre_transcribe_check(0),
        Err(TranscriptionError::AudioTooShort { samples: 0, minimum: 1600 })
    ));
}

#[test]
fn stale_reader_emits_nothing_after_reconnect() {
    let mut conn = StreamingConnection::new();
    conn.set_source_label("user".to_string());
    let mut log = TranscriptLog::new();

    let first_reader = conn.connection_established();
    conn.queue_chunk_info(0, 3000, 3000);

    // the send fails: state and buffers are cleared before the reconnect
    assert_eq!(StreamingConnection::send_step(false, 0), SendStep::CleanupAndRetry);
    conn.handle_send_failure();
    let second_reader = conn.connection_established();
    assert!(second_reader > first_reader);

    // the reader spawned before the reconnect must not emit
    let msg = ReaderMessage {
        text: "hola".to_string(),
        confidence_milli: 900,
        is_final: true,
        speech_final: false,
    };
    let before = log.len();
    let outcome = conn.reader_message(first_reader, msg.clone(), &mut log);
    assert_eq!(outcome, ReaderOutcome::Stale);
    assert_eq!(log.len(), before, "a superseded reader emits nothing");

    // the live reader emits; the pending queue was cleared at the failure,
    // so the fallback zero timestamps are used
    let outcome = conn.reader_message(second_reader, msg, &mut log);
    assert_eq!(outcome, ReaderOutcome::EmittedFinal);
    assert_eq!(log.len(), before + 1);
    let u = &log.updates()[before];
    assert_eq!(u.audio_start_ms, 0);
    assert_eq!(u.audio_end_ms, 0);
    assert!(!u.is_partial);
    assert_eq!(u.source_type.as_deref(), Some("user"));
}

#[test]
fn reader_correlates_pending_chunk_info_in_fifo_order() {
    let mut conn = StreamingConnection::new();
    let mut log = TranscriptLog::new();
    let gen = conn.connection_established();
    conn.queue_chunk_info(0, 3000, 3000);
    conn.queue_chunk_info(3000, 6000, 3000);

    // an interim result peeks without popping
    let partial = ReaderMessage {
        text: "ho".to_string(),
        confidence_milli: 400,
        is_final: false,
        speech_final: false,
    };
    assert_eq!(conn.reader_message(gen, partial, &mut log), ReaderOutcome::EmittedPartial);
    assert!(log.updates()[0].is_partial);
    assert_eq!(log.updates()[0].audio_start_ms, 0);

    // a natural pause counts as final and pops the first info
    let speech_final = ReaderMessage {
        text: "hola".to_string(),
        confidence_milli: 900,
        is_final: false,
        speech_final: true,
    };
    assert_eq!(conn.reader_message(gen, speech_final, &mut log), ReaderOutcome::EmittedFinal);
    assert_eq!(log.updates()[1].audio_start_ms, 0);
    assert_eq!(log.updates()[1].audio_end_ms, 3000);

    // the next final uses the second info
    let final_msg = ReaderMessage {
        text: "mundo".to_string(),
        confidence_milli: 950,
        is_final: true,
        speech_final: false,
    };
    assert_eq!(conn.reader_message(gen, final_msg, &mut log), ReaderOutcome::EmittedFinal);
    assert_eq!(log.updates()[2].audio_start_ms, 3000);

    // empty text is ignored
    let empty = ReaderMessage {
        text: String::new(),
        confidence_milli: 0,
        is_final: true,
        speech_final: false,
    };
    assert_eq!(conn.reader_message(gen, empty, &mut log), ReaderOutcome::Ignored);
    assert_eq!(log.len(), 3);
}

#[test]
fn streaming_precheck_and_retry_policy() {
    assert!(StreamingConnection::streaming_precheck(1600).is_ok());
    match StreamingConnection::streaming_precheck(100) {
        Err(TranscriptionError::AudioTooShort { samples, minimum }) => {
            assert_eq!(samples, 100);
            assert_eq!(minimum, 1600);
        },
        other => panic!("expected too-short error, got {:?}", other),
    }
    assert_eq!(StreamingConnection::send_step(true, 0), SendStep::Done);
    assert_eq!(StreamingConnection::send_step(false, 1), SendStep::Fail);
    assert!(StreamingConnection::may_attempt_connect(0));
    assert!(StreamingConnection::may_attempt_connect(2));
    assert!(!StreamingConnection::may_attempt_connect(3));
}

#[test]
fn close_stream_clears_connection_state() {
    let mut conn = StreamingConnection::new();
    let _gen = conn.connection_established();
    conn.queue_chunk_info(0, 1000, 1000);
    conn.close_persistent_stream();
    let mut log = TranscriptLog::new();
    // after the close, a fresh connection starts with an empty FIFO
    let gen = conn.connection_established();
    let msg = ReaderMessage {
        text: "tarde".to_string(),
        confidence_milli: 700,
        is_final: true,
        speech_final: false,
    };
    conn.reader_message(gen, msg, &mut log);
    assert_eq!(log.updates()[0].audio_start_ms, 0, "cleared FIFO falls back to zero");
}

#[test]
fn idempotent_stop_while_idle() {
    let mut lc = RecordingLifecycle::new();
    assert!(!lc.is_recording_active());
    // stop while idle: success immediately, no state change, no events
    assert_eq!(lc.begin_stop(), StopBegin::AlreadyIdle);
    assert!(!lc.is_recording_active());
    assert_eq!(lc.begin_stop(), StopBegin::AlreadyIdle);
}

#[test]
fn lifecycle_start_checks_fail_fast() {
    let mut lc = RecordingLifecycle::new();
    assert_eq!(
        lc.start_recording(false, Some("Mic".to_string()), None, None).unwrap_err(),
        StartError::ModelNotReady
    );
    assert_eq!(
        lc.start_recording(true, None, None, None).unwrap_err(),
        StartError::MicrophoneUnavailable
    );
    assert!(!lc.is_recording_active(), "failed starts leave no session behind");

    let outcome = lc
        .start_recording(true, Some("Mic".to_string()), None, Some("Standup".to_string()))
        .unwrap();
    assert!(outcome.system_audio_degraded, "missing system audio degrades, not fails");
    assert!(lc.is_recording_active());
    assert_eq!(
        lc.start_recording(true, Some("Mic".to_string()), None, None).unwrap_err(),
        StartError::AlreadyRecording
    );

    assert_eq!(StartError::AlreadyRecording.message(), "Recording already in progress");
}

#[test]
fn lifecycle_pause_resume_and_stop() {
    let mut lc = RecordingLifecycle::new();
    assert_eq!(lc.pause_recording().unwrap_err(), PauseError::NotRecording);
    lc.start_recording(true, Some("Mic".to_string()), Some("Sys".to_string()), None).unwrap();
    lc.pause_recording().unwrap();
    assert_eq!(lc.pause_recording().unwrap_err(), PauseError::AlreadyPaused);
    lc.resume_recording().unwrap();
    assert_eq!(lc.resume_recording().unwrap_err(), PauseError::NotPaused);
    assert_eq!(lc.begin_stop(), StopBegin::Begin);
    lc.finish_stop();
    assert!(!lc.is_recording_active(), "stop always ends in the idle state");
    let status = lc.get_transcription_status();
    assert!(!status.is_processing);
    assert_eq!(status.chunks_in_queue, 0);
}

#[test]
fn shutdown_stages_report_expected_progress() {
    assert_eq!(stage_progress(ShutdownStage::StoppingAudio), 20);
    assert_eq!(stage_progress(ShutdownStage::ProcessingTranscripts), 40);
    assert_eq!(stage_progress(ShutdownStage::UnloadingModel), 70);
    assert_eq!(stage_progress(ShutdownStage::Finalizing), 90);
    assert_eq!(stage_progress(ShutdownStage::Complete), 100);
}

#[test]
fn loss_reports_cover_every_outcome() {
    let balanced = CompletionTracker {
        chunks_queued: 5,
        chunks_completed: 5,
        chunks_dropped: 0,
        input_finished: true,
    };
    assert_eq!(classify_completion(&balanced), Some(LossReport::ZeroLoss { completed: 5 }));
    assert!(!should_retry_verification(&balanced, 0));

    let partial = CompletionTracker {
        chunks_queued: 5,
        chunks_completed: 4,
        chunks_dropped: 1,
        input_finished: true,
    };
    assert_eq!(
        final_loss_report(&partial),
        LossReport::PartialLoss { completed: 4, dropped: 1 }
    );

    let lossy = CompletionTracker {
        chunks_queued: 5,
        chunks_completed: 3,
        chunks_dropped: 1,
        input_finished: true,
    };
    assert_eq!(classify_completion(&lossy), None);
    assert!(should_retry_verification(&lossy, 9));
    assert!(!should_retry_verification(&lossy, 10), "retries are bounded");
    assert_eq!(
        final_loss_report(&lossy),
        LossReport::ProcessingLoss { queued: 5, completed: 3, dropped: 1, lost: 1 }
    );
}

#[test]
fn connection_states_are_distinct() {
    let conn = StreamingConnection::new();
    let _ = conn;
    assert_ne!(ConnectionState::Disconnected, ConnectionState::Connected);
    assert_ne!(ConnectionState::Connecting, ConnectionState::Connected);
}

#[test]
fn test_audio_too_short() {
    // only 100 samples, below the 1600-sample streaming minimum
    let result = StreamingConnection::streaming_precheck(100);
    assert!(matches!(result, Err(TranscriptionError::AudioTooShort { .. })));
}

#[test]
fn test_chunk_info_queue() {
    let mut conn = StreamingConnection::new();
    let gen = conn.connection_established();
    conn.queue_chunk_info(0, 3000, 3000);
    conn.queue_chunk_info(3000, 6000, 3000);

    // the queued metadata comes back out in send order
    let mut log = TranscriptLog::new();
    let msg = ReaderMessage {
        text: "a".to_string(),
        confidence_milli: 1000,
        is_final: true,
        speech_final: false,
    };
    conn.reader_message(gen, msg.clone(), &mut log);
    conn.reader_message(gen, msg, &mut log);
    assert_eq!(log.updates()[0].audio_start_ms, 0);
    assert_eq!(log.updates()[1].audio_start_ms, 3000);
}
