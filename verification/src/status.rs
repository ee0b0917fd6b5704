//! Status and event payloads the host layer polls for or receives.

use vstd::prelude::*;
use crate::lifecycle::{RecordingLifecycle, RecordingState};

verus! {

/// Arguments of a stop request.
#[derive(Clone, Debug)]
pub struct RecordingArgs {
    pub save_path: String,
}

/// A snapshot of transcription activity.
#[derive(Clone, Debug)]
pub struct TranscriptionStatus {
    pub chunks_in_queue: usize,
    pub is_processing: bool,
    pub last_activity_ms: u64,
}

/// A device event reported to the host layer while recording.
#[derive(Clone, Debug)]
pub enum DeviceEventResponse {
    DeviceDisconnected { device_name: String, device_type: String },
    DeviceReconnected { device_name: String, device_type: String },
    DeviceListChanged,
}

/// Information about a disconnected device.
#[derive(Clone, Debug)]
pub struct DisconnectedDeviceInfo {
    pub name: String,
    pub device_type: String,
}

/// Whether a reconnect is under way, and to which device.
#[derive(Clone, Debug)]
pub struct ReconnectionStatus {
    pub is_reconnecting: bool,
    pub disconnected_device: Option<DisconnectedDeviceInfo>,
}

impl RecordingLifecycle {
    /// Recording statistics as the host layer polls them.
    pub fn get_transcription_status(&self) -> (r: TranscriptionStatus)
        ensures
            r.chunks_in_queue == 0,
            r.is_processing == (self.spec_state() != RecordingState::Idle),
            r.last_activity_ms == 0,
    {
        TranscriptionStatus {
            chunks_in_queue: 0,
            is_processing: self.is_recording_active(),
            last_activity_ms: 0,
        }
    }
}

} // verus!
