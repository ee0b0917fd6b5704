//! Transcript events and the ordered event log.
//!
//! `sequence_id` is the only total order across sources: it is assigned at
//! emission time from one counter, so interleaved microphone and system
//! emissions stay globally ordered by emission, and no two updates ever carry
//! the same id.

use vstd::prelude::*;

verus! {

/// One transcript event, produced by a worker or by a streaming reader and
/// consumed by the event sink; never mutated after creation.
#[derive(Clone, Debug)]
pub struct TranscriptUpdate {
    pub text: String,
    /// Wall-clock time of emission, for display ("HH:MM:SS").
    pub timestamp: String,
    pub source: String,
    /// Global, strictly increasing emission order.
    pub sequence_id: u64,
    /// Kept equal to `audio_start_ms` for older consumers.
    pub chunk_start_ms: u64,
    pub is_partial: bool,
    /// Confidence in thousandths (0..=1000).
    pub confidence_milli: u32,
    /// Milliseconds from recording start.
    pub audio_start_ms: u64,
    /// Milliseconds from recording start.
    pub audio_end_ms: u64,
    /// Segment duration in milliseconds.
    pub duration_ms: u64,
    /// Speaker attribution: "user" for the microphone, "interlocutor" for
    /// system audio; absent for audio of no single source.
    pub source_type: Option<String>,
}

/// `u` with its sequence id replaced.
pub open spec fn with_sequence(u: TranscriptUpdate, id: u64) -> TranscriptUpdate {
    TranscriptUpdate { sequence_id: id, ..u }
}

/// The ordered log of emitted transcript events, together with the single
/// counter that assigns sequence ids at emission time.
pub struct TranscriptLog {
    updates: Vec<TranscriptUpdate>,
    next_sequence_id: u64,
}

impl TranscriptLog {
    /// Every update emitted so far, in emission order.
    pub closed spec fn emitted(self) -> Seq<TranscriptUpdate> {
        self.updates@
    }

    /// The id the next emission will carry.
    pub closed spec fn spec_next_sequence_id(self) -> u64 {
        self.next_sequence_id
    }

    /// Well-formed log: ids strictly increase in emission order, and every
    /// emitted id is below the counter.
    pub closed spec fn wf(self) -> bool {
        &&& forall|i: int|
            0 <= i < self.updates@.len() ==> #[trigger] self.updates@[i].sequence_id
                < self.next_sequence_id
        &&& forall|i: int, j: int|
            0 <= i < j < self.updates@.len() ==> #[trigger] self.updates@[i].sequence_id
                < #[trigger] self.updates@[j].sequence_id
    }

    /// An empty log; ids start at zero.
    pub fn new() -> (r: Self)
        ensures
            r.wf(),
            r.emitted().len() == 0,
            r.spec_next_sequence_id() == 0,
    {
        TranscriptLog { updates: Vec::new(), next_sequence_id: 0 }
    }

    /// Emit `update`: assign it the next sequence id and append it.
    pub fn emit(&mut self, update: TranscriptUpdate) -> (id: u64)
        requires
            old(self).wf(),
            old(self).spec_next_sequence_id() < u64::MAX,
        ensures
            final(self).wf(),
            id == old(self).spec_next_sequence_id(),
            final(self).spec_next_sequence_id() == id + 1,
            final(self).emitted() == old(self).emitted().push(with_sequence(update, id)),
    {
        let id = self.next_sequence_id;
        let mut update = update;
        update.sequence_id = id;
        self.next_sequence_id = self.next_sequence_id + 1;
        self.updates.push(update);
        proof {
            assert(self.updates@ == old(self).updates@.push(
                with_sequence(with_sequence(update, id), id)));
            assert forall|i: int, j: int| 0 <= i < j < self.updates@.len() implies
                #[trigger] self.updates@[i].sequence_id
                    < #[trigger] self.updates@[j].sequence_id by {
                if j < self.updates@.len() - 1 {
                    assert(old(self).updates@[i].sequence_id < old(self).updates@[j].sequence_id);
                } else {
                    assert(old(self).updates@[i].sequence_id < old(self).next_sequence_id);
                }
            }
        }
        id
    }

    /// Read access to the emitted updates.
    pub fn updates(&self) -> (r: &Vec<TranscriptUpdate>)
        ensures
            r@ == self.emitted(),
    {
        &self.updates
    }

    /// How many updates have been emitted.
    pub fn len(&self) -> (r: usize)
        ensures
            r == self.emitted().len(),
    {
        self.updates.len()
    }
}

/// Emission order is sequence-id order: of any two emitted updates, the
/// earlier one carries the strictly smaller sequence id.
pub proof fn lemma_emission_order(log: TranscriptLog, i: int, j: int)
    requires
        log.wf(),
        0 <= i < j < log.emitted().len(),
    ensures
        log.emitted()[i].sequence_id < log.emitted()[j].sequence_id,
{
}

/// No two emitted updates ever carry the same sequence id.
pub proof fn lemma_no_duplicate_sequence_ids(log: TranscriptLog, i: int, j: int)
    requires
        log.wf(),
        0 <= i < log.emitted().len(),
        0 <= j < log.emitted().len(),
        i != j,
    ensures
        log.emitted()[i].sequence_id != log.emitted()[j].sequence_id,
{
    if i < j {
        lemma_emission_order(log, i, j);
    } else {
        lemma_emission_order(log, j, i);
    }
}

} // verus!
