//! Per-device accumulation of small capture buffers into transcription-sized
//! segments.
//!
//! Small buffers are appended to a per-device window; the window is emitted as
//! one merged chunk once it reaches the configured minimum duration, when no
//! new audio has arrived for the flush timeout (and at least half a second is
//! buffered), or unconditionally at shutdown so a trailing partial segment is
//! never dropped.

use vstd::prelude::*;
use crate::chunk::{duration_at_least, wrap_inc, AudioChunk, DeviceKind};

verus! {

/// A timeout flush only fires once at least this much audio is buffered.
pub const TIMEOUT_FLUSH_FLOOR_MS: u64 = 500;

/// Accumulates per-device audio until a duration or silence-timeout rule says
/// the buffered window should be handed to transcription as one chunk.
pub struct ChunkAccumulator {
    buffer: Vec<u32>,
    sample_rate: u32,
    first_timestamp_ms: u64,
    device: DeviceKind,
    next_chunk_id: u64,
    min_duration_ms: u64,
    max_duration_ms: u64,
    flush_timeout_ms: u64,
    last_add_ms: u64,
}

impl ChunkAccumulator {
    /// The buffered sample values, oldest first.
    pub closed spec fn buffered(self) -> Seq<u32> {
        self.buffer@
    }

    /// Sample rate of the current window.
    pub closed spec fn rate(self) -> u32 {
        self.sample_rate
    }

    /// Timestamp of the first sample of the current window.
    pub closed spec fn window_start_ms(self) -> u64 {
        self.first_timestamp_ms
    }

    /// Device of the current window.
    pub closed spec fn window_device(self) -> DeviceKind {
        self.device
    }

    /// Id the next emitted chunk will carry.
    pub closed spec fn spec_next_chunk_id(self) -> u64 {
        self.next_chunk_id
    }

    /// Configured minimum duration before `add` emits.
    pub closed spec fn min_duration(self) -> u64 {
        self.min_duration_ms
    }

    /// Configured maximum duration before a flush is forced.
    pub closed spec fn max_duration(self) -> u64 {
        self.max_duration_ms
    }

    /// Configured silence timeout.
    pub closed spec fn flush_timeout(self) -> u64 {
        self.flush_timeout_ms
    }

    /// Time audio was last added.
    pub closed spec fn last_add(self) -> u64 {
        self.last_add_ms
    }

    /// Well-formed accumulator: a positive rate (so buffered duration is
    /// defined) and a minimum that does not exceed the maximum.
    pub closed spec fn wf(self) -> bool {
        &&& self.sample_rate > 0
        &&& self.min_duration_ms <= self.max_duration_ms
    }

    /// The configuration never changes after construction.
    pub open spec fn same_config(self, other: Self) -> bool {
        &&& self.min_duration() == other.min_duration()
        &&& self.max_duration() == other.max_duration()
        &&& self.flush_timeout() == other.flush_timeout()
    }

    /// Duration of the buffered window in whole milliseconds.
    pub open spec fn buffered_duration_ms(self) -> int {
        AudioChunk::spec_duration_ms_of(self.buffered().len(), self.rate() as nat)
    }

    /// Rate the window will have after `chunk` is added: a chunk that opens a
    /// new window sets the window's rate, timestamp and device.
    pub open spec fn rate_after(self, chunk: AudioChunk) -> u32 {
        if self.buffered().len() == 0 {
            chunk.sample_rate
        } else {
            self.rate()
        }
    }

    /// Window start after `chunk` is added.
    pub open spec fn start_after(self, chunk: AudioChunk) -> u64 {
        if self.buffered().len() == 0 {
            chunk.timestamp_ms
        } else {
            self.window_start_ms()
        }
    }

    /// Window device after `chunk` is added.
    pub open spec fn device_after(self, chunk: AudioChunk) -> DeviceKind {
        if self.buffered().len() == 0 {
            chunk.device
        } else {
            self.window_device()
        }
    }

    /// Whether adding `chunk` brings the window to a duration that must be
    /// flushed: at least the maximum, or at least the minimum.
    pub open spec fn reaches_flush_duration(self, chunk: AudioChunk) -> bool {
        let d = AudioChunk::spec_duration_ms_of(
            self.buffered().len() + chunk.samples@.len(),
            self.rate_after(chunk) as nat,
        );
        d >= self.max_duration() || d >= self.min_duration()
    }

    /// A fresh accumulator with an empty buffer.
    pub fn new(min_duration_ms: u64, max_duration_ms: u64, flush_timeout_ms: u64, now_ms: u64) -> (r: Self)
        requires
            min_duration_ms <= max_duration_ms,
        ensures
            r.wf(),
            r.buffered().len() == 0,
            r.spec_next_chunk_id() == 0,
            r.min_duration() == min_duration_ms,
            r.max_duration() == max_duration_ms,
            r.flush_timeout() == flush_timeout_ms,
            r.last_add() == now_ms,
    {
        ChunkAccumulator {
            buffer: Vec::new(),
            sample_rate: 16000,
            first_timestamp_ms: 0,
            device: DeviceKind::Mixed,
            next_chunk_id: 0,
            min_duration_ms,
            max_duration_ms,
            flush_timeout_ms,
            last_add_ms: now_ms,
        }
    }

    /// Append a chunk to the window; emit the merged window if it has reached
    /// the configured duration.
    ///
    /// A chunk emitted here always lasts at least the configured minimum
    /// duration; only `flush` and `check_timeout` may emit shorter windows.
    pub fn add(&mut self, chunk: AudioChunk, now_ms: u64) -> (r: Option<AudioChunk>)
        requires
            old(self).wf(),
            chunk.wf(),
        ensures
            final(self).wf(),
            final(self).same_config(*old(self)),
            final(self).last_add() == now_ms,
            r is Some <==> (old(self).reaches_flush_duration(chunk)
                && old(self).buffered().len() + chunk.samples@.len() > 0),
            r matches Some(c) ==> {
                &&& c.samples@ == old(self).buffered() + chunk.samples@
                &&& c.sample_rate == old(self).rate_after(chunk)
                &&& c.timestamp_ms == old(self).start_after(chunk)
                &&& c.device == old(self).device_after(chunk)
                &&& c.chunk_id == old(self).spec_next_chunk_id()
                &&& c.spec_duration_ms() >= old(self).min_duration()
                &&& c.wf()
                &&& final(self).buffered().len() == 0
                &&& final(self).spec_next_chunk_id() == wrap_inc(old(self).spec_next_chunk_id())
            },
            r is None ==> {
                &&& final(self).buffered() == old(self).buffered() + chunk.samples@
                &&& final(self).rate() == old(self).rate_after(chunk)
                &&& final(self).window_start_ms() == old(self).start_after(chunk)
                &&& final(self).window_device() == old(self).device_after(chunk)
                &&& final(self).spec_next_chunk_id() == old(self).spec_next_chunk_id()
            },
    {
        let mut chunk = chunk;
        if self.buffer.len() == 0 {
            self.first_timestamp_ms = chunk.timestamp_ms;
            self.device = chunk.device;
            self.sample_rate = chunk.sample_rate;
        }
        self.buffer.append(&mut chunk.samples);
        self.last_add_ms = now_ms;

        let reached_max = duration_at_least(self.buffer.len(), self.sample_rate, self.max_duration_ms);
        let reached_min = duration_at_least(self.buffer.len(), self.sample_rate, self.min_duration_ms);
        if reached_max || reached_min {
            self.flush()
        } else {
            None
        }
    }

    /// Poll for a silence-timeout flush: if no audio has arrived for the
    /// configured flush timeout and at least `TIMEOUT_FLUSH_FLOOR_MS` of audio
    /// is buffered, the window is flushed early to bound end-of-utterance
    /// latency.
    pub fn check_timeout(&mut self, now_ms: u64) -> (r: Option<AudioChunk>)
        requires
            old(self).wf(),
        ensures
            final(self).wf(),
            final(self).same_config(*old(self)),
            final(self).last_add() == old(self).last_add(),
            r is Some <==> {
                &&& old(self).buffered().len() > 0
                &&& now_ms >= old(self).last_add() + old(self).flush_timeout()
                &&& old(self).buffered_duration_ms() >= TIMEOUT_FLUSH_FLOOR_MS
            },
            r matches Some(c) ==> {
                &&& c.samples@ == old(self).buffered()
                &&& c.sample_rate == old(self).rate()
                &&& c.timestamp_ms == old(self).window_start_ms()
                &&& c.device == old(self).window_device()
                &&& c.chunk_id == old(self).spec_next_chunk_id()
                &&& c.wf()
                &&& final(self).buffered().len() == 0
                &&& final(self).spec_next_chunk_id() == wrap_inc(old(self).spec_next_chunk_id())
            },
            r is None ==> *final(self) == *old(self),
    {
        if self.buffer.len() > 0
            && now_ms >= self.last_add_ms
            && now_ms - self.last_add_ms >= self.flush_timeout_ms
            && duration_at_least(self.buffer.len(), self.sample_rate, TIMEOUT_FLUSH_FLOOR_MS)
        {
            self.flush()
        } else {
            None
        }
    }

    /// Unconditionally drain the buffered window into one chunk, however
    /// short; used at shutdown so a trailing partial segment is never lost.
    pub fn flush(&mut self) -> (r: Option<AudioChunk>)
        requires
            old(self).wf(),
        ensures
            final(self).wf(),
            final(self).same_config(*old(self)),
            final(self).last_add() == old(self).last_add(),
            r is Some <==> old(self).buffered().len() > 0,
            r matches Some(c) ==> {
                &&& c.samples@ == old(self).buffered()
                &&& c.sample_rate == old(self).rate()
                &&& c.timestamp_ms == old(self).window_start_ms()
                &&& c.device == old(self).window_device()
                &&& c.chunk_id == old(self).spec_next_chunk_id()
                &&& c.wf()
                &&& final(self).buffered().len() == 0
                &&& final(self).spec_next_chunk_id() == wrap_inc(old(self).spec_next_chunk_id())
            },
            r is None ==> *final(self) == *old(self),
    {
        if self.buffer.len() == 0 {
            return None;
        }

        let chunk_id = self.next_chunk_id;
        self.next_chunk_id = if self.next_chunk_id == u64::MAX { 0 } else { self.next_chunk_id + 1 };

        let mut drained: Vec<u32> = Vec::new();
        core::mem::swap(&mut drained, &mut self.buffer);

        Some(AudioChunk {
            samples: drained,
            sample_rate: self.sample_rate,
            timestamp_ms: self.first_timestamp_ms,
            chunk_id,
            device: self.device,
        })
    }
}

/// Whether `c` is exactly the merged window that adding `chunk` to the
/// accumulator `pre` completes: all buffered samples followed by the chunk's,
/// under the window's rate, start, device and running id.
pub open spec fn is_merged_window(c: AudioChunk, pre: ChunkAccumulator, chunk: AudioChunk) -> bool {
    &&& c.samples@ == pre.buffered() + chunk.samples@
    &&& c.sample_rate == pre.rate_after(chunk)
    &&& c.timestamp_ms == pre.start_after(chunk)
    &&& c.device == pre.device_after(chunk)
    &&& c.chunk_id == pre.spec_next_chunk_id()
}

/// Whether `c` is exactly the window a flush of the accumulator `pre` emits.
pub open spec fn is_flushed_window(c: AudioChunk, pre: ChunkAccumulator) -> bool {
    &&& c.samples@ == pre.buffered()
    &&& c.sample_rate == pre.rate()
    &&& c.timestamp_ms == pre.window_start_ms()
    &&& c.device == pre.window_device()
    &&& c.chunk_id == pre.spec_next_chunk_id()
}

/// How an accumulator moves when a chunk is added: either the window was
/// emitted and the buffer starts over, or everything stays buffered.
pub open spec fn add_transition(
    pre: ChunkAccumulator,
    post: ChunkAccumulator,
    chunk: AudioChunk,
    emitted: bool,
) -> bool {
    if emitted {
        &&& post.buffered().len() == 0
        &&& post.spec_next_chunk_id() == wrap_inc(pre.spec_next_chunk_id())
    } else {
        &&& post.buffered() == pre.buffered() + chunk.samples@
        &&& post.rate() == pre.rate_after(chunk)
        &&& post.window_start_ms() == pre.start_after(chunk)
        &&& post.window_device() == pre.device_after(chunk)
        &&& post.spec_next_chunk_id() == pre.spec_next_chunk_id()
    }
}

} // verus!
