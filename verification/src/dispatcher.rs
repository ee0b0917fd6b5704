//! The dispatcher: per-device accumulation in front of a bounded work queue.
//!
//! Chunks enter through `ingest`, are batched per device, and the merged
//! windows are offered to a queue of fixed capacity. When the queue has been
//! full past the send timeout the chunk is dropped and counted, never silently
//! lost: at all times every chunk ever offered is accounted for as completed,
//! dropped, waiting in the queue, or in a worker's hands.

use vstd::prelude::*;
use crate::accumulator::{add_transition, is_flushed_window, is_merged_window, ChunkAccumulator};
use crate::chunk::{AudioChunk, DeviceKind};
use crate::tracker::CompletionTracker;

verus! {

/// Capacity of the bounded work queue: minutes of audio at typical chunk
/// durations.
pub const WORK_QUEUE_CAPACITY: usize = 2000;

/// How long an enqueue may wait on a full queue before the chunk is dropped.
pub const SEND_TIMEOUT_MS: u64 = 5000;

/// What became of a chunk offered to the work queue.
#[derive(Clone, Copy, Debug, PartialEq, Eq, Structural)]
pub enum DispatchOutcome {
    /// The chunk waits in the queue.
    Queued,
    /// The queue stayed full past the send timeout; the chunk was dropped and
    /// counted as dropped.
    DroppedFull,
}

/// Accumulators, bounded queue and counters of one recording session.
pub struct Dispatcher {
    mic_accumulator: ChunkAccumulator,
    sys_accumulator: ChunkAccumulator,
    queue: Vec<AudioChunk>,
    capacity: usize,
    tracker: CompletionTracker,
    in_flight: u64,
}

impl Dispatcher {
    /// The chunks waiting in the work queue, oldest first.
    pub closed spec fn queued_chunks(self) -> Seq<AudioChunk> {
        self.queue@
    }

    /// Queue capacity fixed at construction.
    pub closed spec fn spec_capacity(self) -> usize {
        self.capacity
    }

    /// The session's completion counters.
    pub closed spec fn spec_tracker(self) -> CompletionTracker {
        self.tracker
    }

    /// Chunks taken by a worker and not yet marked completed.
    pub closed spec fn spec_in_flight(self) -> u64 {
        self.in_flight
    }

    /// The microphone-side accumulator.
    pub closed spec fn mic(self) -> ChunkAccumulator {
        self.mic_accumulator
    }

    /// The system-audio-side accumulator.
    pub closed spec fn sys(self) -> ChunkAccumulator {
        self.sys_accumulator
    }

    /// The accounting invariant: every chunk ever offered to the queue is
    /// completed, dropped, still queued, or in a worker's hands.
    pub open spec fn accounted(self) -> bool {
        self.spec_tracker().chunks_queued == self.spec_tracker().chunks_completed
            + self.spec_tracker().chunks_dropped + self.queued_chunks().len()
            + self.spec_in_flight()
    }

    /// Well-formed dispatcher.
    pub open spec fn wf(self) -> bool {
        &&& self.mic().wf()
        &&& self.sys().wf()
        &&& self.queued_chunks().len() <= self.spec_capacity()
        &&& self.accounted()
    }

    /// A fresh dispatcher: empty accumulators with the given thresholds, an
    /// empty queue of capacity `capacity`, counters at zero.
    pub fn new(
        capacity: usize,
        min_duration_ms: u64,
        max_duration_ms: u64,
        flush_timeout_ms: u64,
        now_ms: u64,
    ) -> (r: Self)
        requires
            min_duration_ms <= max_duration_ms,
        ensures
            r.wf(),
            r.spec_capacity() == capacity,
            r.queued_chunks().len() == 0,
            r.spec_tracker() == (CompletionTracker {
                chunks_queued: 0u64,
                chunks_completed: 0u64,
                chunks_dropped: 0u64,
                input_finished: false,
            }),
            r.spec_in_flight() == 0,
            r.mic().buffered().len() == 0,
            r.sys().buffered().len() == 0,
            r.mic().min_duration() == min_duration_ms,
            r.mic().max_duration() == max_duration_ms,
            r.mic().flush_timeout() == flush_timeout_ms,
            r.sys().same_config(r.mic()),
    {
        Dispatcher {
            mic_accumulator: ChunkAccumulator::new(
                min_duration_ms, max_duration_ms, flush_timeout_ms, now_ms),
            sys_accumulator: ChunkAccumulator::new(
                min_duration_ms, max_duration_ms, flush_timeout_ms, now_ms),
            queue: Vec::new(),
            capacity,
            tracker: CompletionTracker::new(),
            in_flight: 0,
        }
    }

    /// Offer one accumulated chunk to the bounded work queue.
    ///
    /// `chunks_queued` always increments for the offered chunk. If the queue
    /// is full — the send timed out on a stalled consumer — exactly this one
    /// chunk is dropped and `chunks_dropped` increments by one; otherwise the
    /// chunk joins the back of the queue.
    pub fn dispatch_accumulated(&mut self, chunk: AudioChunk) -> (r: DispatchOutcome)
        requires
            old(self).wf(),
            old(self).spec_tracker().chunks_queued < u64::MAX,
        ensures
            final(self).wf(),
            final(self).mic() == old(self).mic(),
            final(self).sys() == old(self).sys(),
            final(self).spec_capacity() == old(self).spec_capacity(),
            final(self).spec_in_flight() == old(self).spec_in_flight(),
            final(self).spec_tracker().chunks_queued
                == old(self).spec_tracker().chunks_queued + 1,
            final(self).spec_tracker().chunks_completed
                == old(self).spec_tracker().chunks_completed,
            final(self).spec_tracker().input_finished
                == old(self).spec_tracker().input_finished,
            r == DispatchOutcome::DroppedFull
                <==> old(self).queued_chunks().len() == old(self).spec_capacity(),
            r == DispatchOutcome::Queued ==> {
                &&& final(self).queued_chunks() == old(self).queued_chunks().push(chunk)
                &&& final(self).spec_tracker().chunks_dropped
                    == old(self).spec_tracker().chunks_dropped
            },
            r == DispatchOutcome::DroppedFull ==> {
                &&& final(self).queued_chunks() == old(self).queued_chunks()
                &&& final(self).spec_tracker().chunks_dropped
                    == old(self).spec_tracker().chunks_dropped + 1
            },
    {
        self.tracker.record_queued();
        if self.queue.len() < self.capacity {
            self.queue.push(chunk);
            DispatchOutcome::Queued
        } else {
            proof {
                // accounted: dropped < queued <= u64::MAX, so no overflow
                assert(old(self).spec_tracker().chunks_dropped < u64::MAX);
            }
            self.tracker.record_dropped();
            DispatchOutcome::DroppedFull
        }
    }

    /// Route one captured chunk: mixed audio bypasses accumulation and is
    /// offered to the queue directly; microphone and system audio go through
    /// their accumulators, and a window the accumulator emits is offered to
    /// the queue. Returns the outcome of the offer, if one was made.
    pub fn ingest(&mut self, chunk: AudioChunk, now_ms: u64) -> (r: Option<DispatchOutcome>)
        requires
            old(self).wf(),
            chunk.wf(),
            old(self).spec_tracker().chunks_queued < u64::MAX,
        ensures
            final(self).wf(),
            final(self).spec_capacity() == old(self).spec_capacity(),
            final(self).spec_in_flight() == old(self).spec_in_flight(),
            final(self).spec_tracker().chunks_completed
                == old(self).spec_tracker().chunks_completed,
            final(self).mic().same_config(old(self).mic()),
            final(self).sys().same_config(old(self).sys()),
            // a chunk is offered exactly when mixed audio arrives or the
            // accumulator window reached its flush duration
            r is Some <==> (chunk.device == DeviceKind::Mixed
                || (chunk.device == DeviceKind::Microphone
                    && old(self).mic().reaches_flush_duration(chunk)
                    && old(self).mic().buffered().len() + chunk.samples@.len() > 0)
                || (chunk.device == DeviceKind::System
                    && old(self).sys().reaches_flush_duration(chunk)
                    && old(self).sys().buffered().len() + chunk.samples@.len() > 0)),
            // counters move only when an offer was made, and then as
            // `dispatch_accumulated` says
            r is None ==> final(self).spec_tracker() == old(self).spec_tracker()
                && final(self).queued_chunks() == old(self).queued_chunks(),
            r is Some ==> final(self).spec_tracker().chunks_queued
                == old(self).spec_tracker().chunks_queued + 1,
            r matches Some(o) ==> (o == DispatchOutcome::DroppedFull
                <==> old(self).queued_chunks().len() == old(self).spec_capacity()),
            r == Some(DispatchOutcome::DroppedFull) ==> {
                &&& final(self).queued_chunks() == old(self).queued_chunks()
                &&& final(self).spec_tracker().chunks_dropped
                    == old(self).spec_tracker().chunks_dropped + 1
            },
            r == Some(DispatchOutcome::Queued) ==> {
                &&& final(self).queued_chunks().len() == old(self).queued_chunks().len() + 1
                &&& final(self).spec_tracker().chunks_dropped
                    == old(self).spec_tracker().chunks_dropped
            },
            // mixed audio is forwarded as it came and touches no accumulator
            chunk.device == DeviceKind::Mixed ==> {
                &&& final(self).mic() == old(self).mic()
                &&& final(self).sys() == old(self).sys()
                &&& (r == Some(DispatchOutcome::Queued) ==> final(self).queued_chunks()
                    == old(self).queued_chunks().push(chunk))
            },
            // device audio moves its accumulator as `add` says, and a window
            // that was accepted joins the back of the queue exactly as merged
            chunk.device == DeviceKind::Microphone ==> {
                &&& final(self).sys() == old(self).sys()
                &&& add_transition(old(self).mic(), final(self).mic(), chunk, r is Some)
                &&& (r == Some(DispatchOutcome::Queued) ==> final(self).queued_chunks()
                    == old(self).queued_chunks().push(final(self).queued_chunks().last())
                    && is_merged_window(
                    final(self).queued_chunks().last(),
                    old(self).mic(),
                    chunk,
                ))
            },
            chunk.device == DeviceKind::System ==> {
                &&& final(self).mic() == old(self).mic()
                &&& add_transition(old(self).sys(), final(self).sys(), chunk, r is Some)
                &&& (r == Some(DispatchOutcome::Queued) ==> final(self).queued_chunks()
                    == old(self).queued_chunks().push(final(self).queued_chunks().last())
                    && is_merged_window(
                    final(self).queued_chunks().last(),
                    old(self).sys(),
                    chunk,
                ))
            },
    {
        let accumulated: Option<AudioChunk> = match chunk.device {
            DeviceKind::Microphone => self.mic_accumulator.add(chunk, now_ms),
            DeviceKind::System => self.sys_accumulator.add(chunk, now_ms),
            DeviceKind::Mixed => Some(chunk),
        };
        match accumulated {
            Some(merged) => Some(self.dispatch_accumulated(merged)),
            None => None,
        }
    }

    /// Poll both accumulators for a silence-timeout flush and offer any
    /// flushed window to the queue.
    pub fn check_timeouts(&mut self, now_ms: u64) -> (r: (Option<DispatchOutcome>, Option<DispatchOutcome>))
        requires
            old(self).wf(),
            old(self).spec_tracker().chunks_queued < u64::MAX - 1,
        ensures
            final(self).wf(),
            final(self).spec_capacity() == old(self).spec_capacity(),
            final(self).spec_in_flight() == old(self).spec_in_flight(),
            final(self).spec_tracker().chunks_completed
                == old(self).spec_tracker().chunks_completed,
            final(self).mic().same_config(old(self).mic()),
            final(self).sys().same_config(old(self).sys()),
            r.0 is Some <==> (old(self).mic().buffered().len() > 0
                && now_ms >= old(self).mic().last_add() + old(self).mic().flush_timeout()
                && old(self).mic().buffered_duration_ms()
                    >= crate::accumulator::TIMEOUT_FLUSH_FLOOR_MS),
            r.1 is Some <==> (old(self).sys().buffered().len() > 0
                && now_ms >= old(self).sys().last_add() + old(self).sys().flush_timeout()
                && old(self).sys().buffered_duration_ms()
                    >= crate::accumulator::TIMEOUT_FLUSH_FLOOR_MS),
            r.0 is Some ==> final(self).mic().buffered().len() == 0,
            r.1 is Some ==> final(self).sys().buffered().len() == 0,
            r.0 is None ==> final(self).mic() == old(self).mic(),
            r.1 is None ==> final(self).sys() == old(self).sys(),
            final(self).spec_tracker().chunks_queued
                == old(self).spec_tracker().chunks_queued
                    + (if r.0 is Some { 1int } else { 0int })
                    + (if r.1 is Some { 1int } else { 0int }),
            // an accepted flush joins the queue exactly as buffered
            final(self).queued_chunks().subrange(0, old(self).queued_chunks().len() as int)
                == old(self).queued_chunks(),
            r.0 == Some(DispatchOutcome::Queued) ==> (exists|k: int|
                old(self).queued_chunks().len() <= k < final(self).queued_chunks().len()
                    && is_flushed_window(#[trigger] final(self).queued_chunks()[k], old(self).mic())),
            r.1 == Some(DispatchOutcome::Queued) ==> (exists|k: int|
                old(self).queued_chunks().len() <= k < final(self).queued_chunks().len()
                    && is_flushed_window(#[trigger] final(self).queued_chunks()[k], old(self).sys())),
    {
        let ghost q0 = self.queue@;
        let ghost mut mic_window: Option<AudioChunk> = None;
        let mic_flush = self.mic_accumulator.check_timeout(now_ms);
        let mic_outcome = match mic_flush {
            Some(c) => {
                proof {
                    mic_window = Some(c);
                }
                Some(self.dispatch_accumulated(c))
            },
            None => None,
        };
        let ghost q1 = self.queue@;
        let ghost mut sys_window: Option<AudioChunk> = None;
        let sys_flush = self.sys_accumulator.check_timeout(now_ms);
        let sys_outcome = match sys_flush {
            Some(c) => {
                proof {
                    sys_window = Some(c);
                }
                Some(self.dispatch_accumulated(c))
            },
            None => None,
        };
        proof {
            if mic_outcome == Some(DispatchOutcome::Queued) {
                let w = mic_window->Some_0;
                assert(self.queue@[q0.len() as int] == w);
                assert(is_flushed_window(self.queued_chunks()[q0.len() as int], old(self).mic()));
            }
            if sys_outcome == Some(DispatchOutcome::Queued) {
                let w = sys_window->Some_0;
                assert(self.queue@[q1.len() as int] == w);
                assert(is_flushed_window(self.queued_chunks()[q1.len() as int], old(self).sys()));
            }
        }
        (mic_outcome, sys_outcome)
    }

    /// End of input: force-flush both accumulators so a trailing partial
    /// window is never dropped, offer the flushed windows to the queue, and
    /// mark input finished.
    pub fn finish_input(&mut self) -> (r: (Option<DispatchOutcome>, Option<DispatchOutcome>))
        requires
            old(self).wf(),
            old(self).spec_tracker().chunks_queued < u64::MAX - 1,
        ensures
            final(self).wf(),
            final(self).spec_capacity() == old(self).spec_capacity(),
            final(self).spec_in_flight() == old(self).spec_in_flight(),
            final(self).spec_tracker().chunks_completed
                == old(self).spec_tracker().chunks_completed,
            final(self).spec_tracker().input_finished,
            final(self).mic().buffered().len() == 0,
            final(self).sys().buffered().len() == 0,
            r.0 is Some <==> old(self).mic().buffered().len() > 0,
            r.1 is Some <==> old(self).sys().buffered().len() > 0,
            final(self).spec_tracker().chunks_queued
                == old(self).spec_tracker().chunks_queued
                    + (if r.0 is Some { 1int } else { 0int })
                    + (if r.1 is Some { 1int } else { 0int }),
            // a trailing window that was accepted is queued exactly as buffered
            final(self).queued_chunks().subrange(0, old(self).queued_chunks().len() as int)
                == old(self).queued_chunks(),
            r.0 == Some(DispatchOutcome::Queued) ==> (exists|k: int|
                old(self).queued_chunks().len() <= k < final(self).queued_chunks().len()
                    && is_flushed_window(#[trigger] final(self).queued_chunks()[k], old(self).mic())),
            r.1 == Some(DispatchOutcome::Queued) ==> (exists|k: int|
                old(self).queued_chunks().len() <= k < final(self).queued_chunks().len()
                    && is_flushed_window(#[trigger] final(self).queued_chunks()[k], old(self).sys())),
    {
        let ghost q0 = self.queue@;
        let ghost mut mic_window: Option<AudioChunk> = None;
        let mic_flush = self.mic_accumulator.flush();
        let mic_outcome = match mic_flush {
            Some(c) => {
                proof {
                    mic_window = Some(c);
                }
                Some(self.dispatch_accumulated(c))
            },
            None => None,
        };
        let ghost q1 = self.queue@;
        let ghost mut sys_window: Option<AudioChunk> = None;
        let sys_flush = self.sys_accumulator.flush();
        let sys_outcome = match sys_flush {
            Some(c) => {
                proof {
                    sys_window = Some(c);
                }
                Some(self.dispatch_accumulated(c))
            },
            None => None,
        };
        proof {
            if mic_outcome == Some(DispatchOutcome::Queued) {
                let w = mic_window->Some_0;
                assert(self.queue@[q0.len() as int] == w);
                assert(is_flushed_window(self.queued_chunks()[q0.len() as int], old(self).mic()));
            }
            if sys_outcome == Some(DispatchOutcome::Queued) {
                let w = sys_window->Some_0;
                assert(q1.len() >= q0.len());
                assert(self.queue@[q1.len() as int] == w);
                assert(is_flushed_window(self.queued_chunks()[q1.len() as int], old(self).sys()));
            }
        }
        self.tracker.mark_input_finished();
        proof {
            if mic_outcome == Some(DispatchOutcome::Queued) {
                assert(is_flushed_window(self.queued_chunks()[q0.len() as int], old(self).mic()));
            }
            if sys_outcome == Some(DispatchOutcome::Queued) {
                assert(is_flushed_window(self.queued_chunks()[q1.len() as int], old(self).sys()));
            }
        }
        (mic_outcome, sys_outcome)
    }

    /// A worker takes the oldest queued chunk; it is in flight until the
    /// worker marks it completed.
    pub fn take_chunk(&mut self) -> (r: Option<AudioChunk>)
        requires
            old(self).wf(),
        ensures
            final(self).wf(),
            final(self).spec_capacity() == old(self).spec_capacity(),
            final(self).spec_tracker() == old(self).spec_tracker(),
            final(self).mic() == old(self).mic(),
            final(self).sys() == old(self).sys(),
            r is Some <==> old(self).queued_chunks().len() > 0,
            r matches Some(c) ==> {
                &&& c == old(self).queued_chunks()[0]
                &&& final(self).queued_chunks() == old(self).queued_chunks().drop_first()
                &&& final(self).spec_in_flight() == old(self).spec_in_flight() + 1
            },
            r is None ==> *final(self) == *old(self),
    {
        if self.queue.len() > 0 {
            let chunk = self.queue.remove(0);
            proof {
                // in_flight < queued <= u64::MAX by the accounting invariant
                assert(old(self).spec_in_flight() < u64::MAX);
            }
            self.in_flight = self.in_flight + 1;
            proof {
                assert(self.queue@ == old(self).queue@.drop_first());
            }
            Some(chunk)
        } else {
            None
        }
    }

    /// A worker finished with the chunk it took — transcribed, skipped or
    /// failed, it counts as completed either way, preserving the accounting.
    pub fn complete_in_flight(&mut self)
        requires
            old(self).wf(),
            old(self).spec_in_flight() > 0,
        ensures
            final(self).wf(),
            final(self).spec_capacity() == old(self).spec_capacity(),
            final(self).mic() == old(self).mic(),
            final(self).sys() == old(self).sys(),
            final(self).queued_chunks() == old(self).queued_chunks(),
            final(self).spec_in_flight() == old(self).spec_in_flight() - 1,
            final(self).spec_tracker().chunks_completed
                == old(self).spec_tracker().chunks_completed + 1,
            final(self).spec_tracker().chunks_queued
                == old(self).spec_tracker().chunks_queued,
            final(self).spec_tracker().chunks_dropped
                == old(self).spec_tracker().chunks_dropped,
            final(self).spec_tracker().input_finished
                == old(self).spec_tracker().input_finished,
    {
        proof {
            assert(old(self).spec_tracker().chunks_completed < u64::MAX);
        }
        self.tracker.record_completed();
        self.in_flight = self.in_flight - 1;
    }

    /// The session's counters, for the shutdown verification loop.
    pub fn tracker(&self) -> (r: &CompletionTracker)
        ensures
            r == self.spec_tracker(),
    {
        &self.tracker
    }

    /// How many chunks wait in the queue.
    pub fn queue_len(&self) -> (r: usize)
        ensures
            r == self.queued_chunks().len(),
    {
        self.queue.len()
    }

    /// How many chunks are in a worker's hands.
    pub fn in_flight(&self) -> (r: u64)
        ensures
            r == self.spec_in_flight(),
    {
        self.in_flight
    }
}

/// The completion invariant at drain: once the queue is empty and no chunk is
/// in a worker's hands, every chunk ever queued is accounted for as completed
/// or dropped — `chunks_queued == chunks_completed + chunks_dropped`.
pub proof fn lemma_drained_pipeline_accounts_for_every_chunk(d: Dispatcher)
    requires
        d.wf(),
        d.queued_chunks().len() == 0,
        d.spec_in_flight() == 0,
    ensures
        d.spec_tracker().spec_balanced(),
{
}

} // verus!
