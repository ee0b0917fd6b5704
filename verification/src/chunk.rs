//! Audio chunks: the unit of audio handed from capture/accumulation to
//! transcription.
//!
//! Sample values are carried as the raw bit patterns of the capture backend's
//! 32-bit samples; the pipeline never inspects a sample, it only counts and
//! moves them. All times are milliseconds: chunk timestamps are relative to
//! the start of the recording.

use vstd::prelude::*;

verus! {

/// Which capture device produced a chunk.
///
/// `Mixed` audio is never transcribed; it bypasses accumulation and is used
/// only for local playback of the recording.
#[derive(Clone, Copy, Debug, PartialEq, Eq, Structural)]
pub enum DeviceKind {
    Microphone,
    System,
    Mixed,
}

/// One unit of captured audio. Immutable once produced; ownership moves from
/// capture to accumulator to dispatcher to worker.
#[derive(Clone, Debug)]
pub struct AudioChunk {
    /// Raw bit patterns of the audio samples.
    pub samples: Vec<u32>,
    /// Samples per second; positive for any chunk the pipeline accepts.
    pub sample_rate: u32,
    /// Milliseconds since the start of the recording.
    pub timestamp_ms: u64,
    /// Per-accumulator running counter.
    pub chunk_id: u64,
    /// Device that produced the audio.
    pub device: DeviceKind,
}

impl AudioChunk {
    /// Duration of `samples` sample values at `rate` samples per second,
    /// in whole milliseconds.
    pub open spec fn spec_duration_ms_of(samples: nat, rate: nat) -> int
        recommends
            rate > 0,
    {
        (samples as int) * 1000 / (rate as int)
    }

    /// Duration of this chunk in whole milliseconds.
    pub open spec fn spec_duration_ms(self) -> int {
        Self::spec_duration_ms_of(self.samples@.len(), self.sample_rate as nat)
    }

    /// A chunk the pipeline accepts: a positive sample rate, so that its
    /// duration is defined.
    pub open spec fn wf(self) -> bool {
        self.sample_rate > 0
    }

    /// Whether this chunk lasts at least `floor_ms` milliseconds.
    pub fn lasts_at_least(&self, floor_ms: u64) -> (r: bool)
        requires
            self.wf(),
        ensures
            r == (self.spec_duration_ms() >= floor_ms),
    {
        duration_at_least(self.samples.len(), self.sample_rate, floor_ms)
    }
}

/// Whether `samples` sample values at `rate` samples per second last at least
/// `floor_ms` milliseconds.
pub fn duration_at_least(samples: usize, rate: u32, floor_ms: u64) -> (r: bool)
    requires
        rate > 0,
    ensures
        r == (AudioChunk::spec_duration_ms_of(samples as nat, rate as nat) >= floor_ms),
{
    let samples_scaled: u128 = (samples as u128) * 1000;
    proof {
        vstd::arithmetic::mul::lemma_mul_upper_bound(
            floor_ms as int, u64::MAX as int, rate as int, u32::MAX as int);
    }
    let need: u128 = (floor_ms as u128) * (rate as u128);
    proof {
        lemma_duration_floor(samples as int, rate as int, floor_ms as int);
    }
    samples_scaled >= need
}

/// Increment that wraps at the top of `u64`, as the running counters do.
pub open spec fn wrap_inc(x: u64) -> u64 {
    if x == u64::MAX {
        0
    } else {
        (x + 1) as u64
    }
}

/// For a positive rate, `samples * 1000 / rate >= floor` exactly when
/// `samples * 1000 >= floor * rate`.
pub proof fn lemma_duration_floor(samples: int, rate: int, floor_ms: int)
    requires
        rate > 0,
        samples >= 0,
        floor_ms >= 0,
    ensures
        (samples * 1000 / rate >= floor_ms) == (samples * 1000 >= floor_ms * rate),
{
    let scaled = samples * 1000;
    vstd::arithmetic::div_mod::lemma_fundamental_div_mod(scaled, rate);
    vstd::arithmetic::div_mod::lemma_mod_bound(scaled, rate);
    vstd::arithmetic::div_mod::lemma_div_is_ordered_by_denominator(scaled, rate, rate);
    if scaled / rate >= floor_ms {
        vstd::arithmetic::mul::lemma_mul_inequality(floor_ms, scaled / rate, rate);
        vstd::arithmetic::mul::lemma_mul_is_commutative(scaled / rate, rate);
    } else {
        vstd::arithmetic::mul::lemma_mul_inequality(scaled / rate + 1, floor_ms, rate);
        vstd::arithmetic::mul::lemma_mul_is_distributive_add_other_way(rate, scaled / rate, 1);
        vstd::arithmetic::mul::lemma_mul_is_commutative(scaled / rate, rate);
        vstd::arithmetic::mul::lemma_mul_is_commutative(floor_ms, rate);
    }
}

} // verus!
