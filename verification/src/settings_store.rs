//! Settings payloads exchanged with the configuration store. The store's own
//! queries are I/O and live in the host layer; the payload shapes and the
//! repository handle live here.

use vstd::prelude::*;

verus! {

/// Request to save the summary-model configuration.
#[derive(Clone, Debug)]
pub struct SaveModelConfigRequest {
    pub provider: String,
    pub model: String,
    pub api_key: Option<String>,
}

/// Request to save the transcription configuration.
#[derive(Clone, Debug)]
pub struct SaveTranscriptConfigRequest {
    pub provider: String,
    pub model: String,
    pub api_key: Option<String>,
    pub language: Option<String>,
}

/// Handle for the settings store.
#[derive(Clone, Copy, Debug, PartialEq, Eq, Structural)]
pub struct SettingsRepository;

/// Log-file summary reported to the host layer.
#[derive(Clone, Debug)]
pub struct LogInfo {
    pub log_directory: Option<String>,
    pub total_size_bytes: u64,
    pub total_size_human: String,
    pub file_count: usize,
    pub files: Vec<LogFileInfo>,
}

/// One log file's summary.
#[derive(Clone, Debug)]
pub struct LogFileInfo {
    pub name: String,
    pub size_bytes: u64,
    pub size_human: String,
    pub modified: Option<String>,
}

} // verus!
