//! Requests a client sends to the transcription service, and their
//! parameter checks.

use vstd::prelude::*;
use crate::types::{AudioSourceType, HotkeyCombination, RecordingMode, TranscriptionMode};

verus! {

/// Request from a client to the service.
#[derive(Debug)]
#[allow(inconsistent_fields)]
pub enum Request {
    /// List all audio devices, optionally only those of one source type
    ListDevices { source_type: Option<AudioSourceType> },
    /// Configure audio sources; capture starts when a valid primary source is set
    SetSources { source1_id: Option<String>, source2_id: Option<String> },
    /// Set acoustic echo cancellation enabled
    SetAecEnabled { enabled: bool },
    /// Set recording mode (mixed or echo-cancel)
    SetRecordingMode { mode: RecordingMode },
    /// Get current transcription status
    GetStatus,
    /// Subscribe to real-time events
    SubscribeEvents,
    /// Get Whisper model status
    GetModelStatus,
    /// Download the Whisper model
    DownloadModel,
    /// Get GPU acceleration status
    GetCudaStatus,
    /// Get all persisted configuration values
    GetConfig,
    /// Set the transcription mode
    SetTranscriptionMode { mode: TranscriptionMode },
    /// Set the push-to-talk hotkey combinations
    SetPushToTalkHotkeys { hotkeys: Vec<HotkeyCombination> },
    /// Get the current PTT status
    GetPttStatus,
    /// Set the auto-mode toggle hotkeys
    SetAutoToggleHotkeys { hotkeys: Vec<HotkeyCombination> },
    /// Get the current auto-mode toggle hotkeys
    GetAutoToggleHotkeys,
    /// Toggle between Automatic and PushToTalk modes
    ToggleAutoMode,
    /// Enable or disable automatic paste after transcription
    SetAutoPaste { enabled: bool },
    /// Get all transcription history entries
    GetHistory,
    /// Delete a single history entry by ID
    DeleteHistoryEntry { id: String },
    /// Start a test capture on a device to report audio levels
    TestAudioDevice { device_id: String },
    /// Stop any active audio device test capture
    StopTestAudioDevice,
    /// The GUI process confirms that Accessibility permission is granted
    SetAccessibilityPermissionGranted { granted: bool },
    /// Health check
    Ping,
    /// Request service shutdown
    Shutdown,
    /// Get the current runtime mode
    GetRuntimeMode,
    /// Register this client as the service owner
    RegisterOwner,
}

/// Why a request's parameters are refused, if they are.
pub open spec fn request_problem(r: Request) -> Option<Seq<char>> {
    match r {
        Request::SetSources { source1_id, source2_id } => {
            if source1_id matches Some(id) && id@.len() == 0 {
                Some("source1_id cannot be empty"@)
            } else if source2_id matches Some(id) && id@.len() == 0 {
                Some("source2_id cannot be empty"@)
            } else {
                None
            }
        },
        Request::TestAudioDevice { device_id } => {
            if device_id@.len() == 0 {
                Some("device_id cannot be empty"@)
            } else {
                None
            }
        },
        _ => None,
    }
}

impl Request {
    /// Validate all parameters of this request.
    pub fn validate(&self) -> (r: Result<(), String>)
        ensures
            match request_problem(*self) {
                Some(msg) => r matches Err(e) && e@ == msg,
                None => r is Ok,
            },
    {
        match self {
            Request::SetSources { source1_id, source2_id } => {
                if let Some(id) = source1_id {
                    if id.as_str().is_empty() {
                        return Err(String::from_str("source1_id cannot be empty"));
                    }
                }
                if let Some(id) = source2_id {
                    if id.as_str().is_empty() {
                        return Err(String::from_str("source2_id cannot be empty"));
                    }
                }
                Ok(())
            },
            Request::TestAudioDevice { device_id } => {
                if device_id.as_str().is_empty() {
                    return Err(String::from_str("device_id cannot be empty"));
                }
                Ok(())
            },
            _ => Ok(()),
        }
    }
}

} // verus!
