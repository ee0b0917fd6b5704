//! Real-time meeting-transcription pipeline core.
//!
//! Turns a stream of timestamped audio chunks into an ordered stream of
//! transcript events: per-device accumulation, a bounded dispatch queue with
//! measured backpressure loss, provider-result gating, streaming-connection
//! generation tracking, and a recording lifecycle whose shutdown protocol
//! accounts for every chunk that entered the pipeline.

pub mod accumulator;
pub mod chunk;
pub mod deepgram;
pub mod detector_settings;
pub mod devices;
pub mod dispatcher;
pub mod engine;
pub mod hardware;
pub mod lifecycle;
pub mod meetings;
pub mod notifications;
pub mod settings_store;
pub mod status;
pub mod streaming;
pub mod strutil;
pub mod sysread;
pub mod textmatch;
pub mod tokenizer;
pub mod tracker;
pub mod transcript;
pub mod worker;

pub use chunk::{AudioChunk, DeviceKind};
