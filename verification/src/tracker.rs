//! Completion tracking: three monotonically increasing counters and an
//! input-finished flag.
//!
//! The counters let the shutdown protocol decide whether every chunk that was
//! queued has been either completed or explicitly dropped, and let the
//! dispatcher report measured backpressure loss instead of silent loss.

use vstd::prelude::*;

verus! {

/// Counters shared by the dispatcher and the workers of one session.
#[derive(Clone, Copy, Debug, PartialEq, Eq, Structural)]
pub struct CompletionTracker {
    /// Chunks handed to the bounded work queue (whether accepted or dropped).
    pub chunks_queued: u64,
    /// Chunks a worker finished with, in whatever way.
    pub chunks_completed: u64,
    /// Chunks dropped because the queue stayed full past the send timeout.
    pub chunks_dropped: u64,
    /// Set once the dispatcher will queue no further chunk.
    pub input_finished: bool,
}

impl CompletionTracker {
    /// Whether every queued chunk is accounted for as completed or dropped.
    pub open spec fn spec_balanced(self) -> bool {
        self.chunks_queued == self.chunks_completed + self.chunks_dropped
    }

    /// All counters at zero, input still open.
    pub fn new() -> (r: Self)
        ensures
            r.chunks_queued == 0,
            r.chunks_completed == 0,
            r.chunks_dropped == 0,
            !r.input_finished,
    {
        CompletionTracker {
            chunks_queued: 0,
            chunks_completed: 0,
            chunks_dropped: 0,
            input_finished: false,
        }
    }

    /// Count one chunk as handed to the work queue.
    pub fn record_queued(&mut self)
        requires
            old(self).chunks_queued < u64::MAX,
        ensures
            *final(self) == (CompletionTracker {
                chunks_queued: (old(self).chunks_queued + 1) as u64,
                ..*old(self)
            }),
    {
        self.chunks_queued = self.chunks_queued + 1;
    }

    /// Count one chunk as finished by a worker.
    pub fn record_completed(&mut self)
        requires
            old(self).chunks_completed < u64::MAX,
        ensures
            *final(self) == (CompletionTracker {
                chunks_completed: (old(self).chunks_completed + 1) as u64,
                ..*old(self)
            }),
    {
        self.chunks_completed = self.chunks_completed + 1;
    }

    /// Count one chunk as dropped under backpressure.
    pub fn record_dropped(&mut self)
        requires
            old(self).chunks_dropped < u64::MAX,
        ensures
            *final(self) == (CompletionTracker {
                chunks_dropped: (old(self).chunks_dropped + 1) as u64,
                ..*old(self)
            }),
    {
        self.chunks_dropped = self.chunks_dropped + 1;
    }

    /// Record that no further chunk will be queued.
    pub fn mark_input_finished(&mut self)
        ensures
            *final(self) == (CompletionTracker { input_finished: true, ..*old(self) }),
    {
        self.input_finished = true;
    }

    /// Whether `chunks_queued == chunks_completed + chunks_dropped` holds now.
    pub fn is_balanced(&self) -> (r: bool)
        ensures
            r == self.spec_balanced(),
    {
        self.chunks_completed <= u64::MAX - self.chunks_dropped
            && self.chunks_queued == self.chunks_completed + self.chunks_dropped
    }
}

} // verus!
