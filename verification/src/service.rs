//! The service's request decisions: what each request changes in the
//! service state, which outside actions it calls for, and what it answers.
//!
//! The audio backend, the hotkey backend, the model files and the history
//! store are reached by the caller; each function here takes what they
//! reported and decides the rest.

use vstd::prelude::*;
use vstd::string::*;
use crate::config::{Config, ThemeMode};
use crate::requests::{Request, request_problem};
use crate::text::{seq_contains, str_contains, str_eq};
use crate::transcribe_mode::TranscriptionQueue;
use crate::types::{
    AudioDevice, AudioSourceType, ConfigValues, CudaStatus, HistoryEntry, HotkeyCombination,
    ModelStatus, PttStatus, RecordingMode, TranscribeStatus, TranscriptionMode, combination_keys,
    copy_combinations,
};

verus! {

/// Response from the service to a request.
pub enum Response {
    /// Request succeeded
    Success,
    /// Answer to a ping
    Pong,
    /// Request failed
    Error { message: String },
    /// Audio devices
    Devices { devices: Vec<AudioDevice> },
    /// Transcription status
    Status(TranscribeStatus),
    /// Persisted configuration values
    ConfigValues(ConfigValues),
    /// Event subscription confirmed
    Subscribed,
    /// Whisper model status
    ModelStatus(ModelStatus),
    /// Push-to-talk status
    PttStatus(PttStatus),
    /// GPU acceleration status
    CudaStatus(CudaStatus),
    /// Transcription history
    History { entries: Vec<HistoryEntry> },
}

impl Response {
    /// An error response with the given message.
    pub fn error(message: String) -> (r: Response)
        ensures
            r matches Response::Error { message: m } && m@ == message@,
    {
        Response::Error { message }
    }
}

/// `r` is an error response carrying `msg`.
pub open spec fn is_error_with(r: Response, msg: Seq<char>) -> bool {
    r matches Response::Error { message } && message@ == msg
}

/// The service's configuration and capture state.
pub struct ServiceState {
    /// Primary audio source ID (microphone)
    pub source1_id: Option<String>,
    /// Secondary audio source ID (system audio)
    pub source2_id: Option<String>,
    /// Whether acoustic echo cancellation is enabled
    pub aec_enabled: bool,
    /// How the two sources are combined
    pub recording_mode: RecordingMode,
    /// Current transcription mode
    pub transcription_mode: TranscriptionMode,
    /// Configured push-to-talk hotkey combinations
    pub ptt_hotkeys: Vec<HotkeyCombination>,
    /// Status reported to clients
    pub transcribe_status: TranscribeStatus,
    /// Whether the push-to-talk key is currently held
    pub is_ptt_active: bool,
}

impl ServiceState {
    /// Whether a primary audio source is configured.
    pub fn has_primary_source(&self) -> (r: bool)
        ensures
            r == self.source1_id is Some,
    {
        self.source1_id.is_some()
    }

    /// Whether capture should run: a primary source is configured.
    pub fn should_capture(&self) -> (r: bool)
        ensures
            r == self.source1_id is Some,
    {
        self.has_primary_source()
    }
}

/// Reject a request whose parameters are invalid, before anything else is
/// done with it.
pub fn check_request(request: &Request) -> (r: Option<Response>)
    ensures
        match request_problem(*request) {
            Some(msg) => r matches Some(resp) && is_error_with(resp, msg),
            None => r is None,
        },
{
    match request.validate() {
        Ok(()) => None,
        Err(e) => Some(Response::error(e)),
    }
}

/// Whether a device listing for `source_type` includes input devices.
pub open spec fn lists_input(source_type: Option<AudioSourceType>) -> bool {
    source_type is None || source_type == Some(AudioSourceType::Input) || source_type == Some(
        AudioSourceType::Mixed,
    )
}

/// Whether a device listing for `source_type` includes system devices.
pub open spec fn lists_system(source_type: Option<AudioSourceType>) -> bool {
    source_type is None || source_type == Some(AudioSourceType::System) || source_type == Some(
        AudioSourceType::Mixed,
    )
}

/// Which device lists to ask the backend for: (input, system).
pub fn device_lists_wanted(source_type: Option<AudioSourceType>) -> (r: (bool, bool))
    ensures
        r.0 == lists_input(source_type),
        r.1 == lists_system(source_type),
{
    let input = match source_type {
        None => true,
        Some(AudioSourceType::Input) => true,
        Some(AudioSourceType::Mixed) => true,
        Some(AudioSourceType::System) => false,
    };
    let system = match source_type {
        None => true,
        Some(AudioSourceType::System) => true,
        Some(AudioSourceType::Mixed) => true,
        Some(AudioSourceType::Input) => false,
    };
    (input, system)
}

/// The answer to a device listing: the wanted input devices, then the
/// wanted system devices; none when no audio backend is available.
pub fn list_devices_response(
    source_type: Option<AudioSourceType>,
    backend: Option<(Vec<AudioDevice>, Vec<AudioDevice>)>,
) -> (r: Response)
    ensures
        r matches Response::Devices { devices } && devices@ == match backend {
            Some(lists) => (if lists_input(source_type) {
                lists.0@
            } else {
                Seq::<AudioDevice>::empty()
            }) + (if lists_system(source_type) {
                lists.1@
            } else {
                Seq::<AudioDevice>::empty()
            }),
            None => Seq::<AudioDevice>::empty(),
        },
{
    let mut devices: Vec<AudioDevice> = Vec::new();
    match backend {
        Some((mut input, mut system)) => {
            let ghost iv = input@;
            let ghost sv = system@;
            let (want_input, want_system) = device_lists_wanted(source_type);
            if want_input {
                devices.append(&mut input);
            }
            if want_system {
                devices.append(&mut system);
            }
            assert(devices@ =~= (if want_input {
                iv
            } else {
                Seq::<AudioDevice>::empty()
            }) + (if want_system {
                sv
            } else {
                Seq::<AudioDevice>::empty()
            }));
        },
        None => {},
    }
    Response::Devices { devices }
}

/// Copy an optional string.
pub fn copy_opt_string(o: &Option<String>) -> (r: Option<String>)
    ensures
        r == *o,
{
    match o {
        Some(s) => Some(s.clone()),
        None => None,
    }
}

/// What a change of audio sources calls for.
pub struct SourcesPlan {
    /// Capture, or push-to-talk monitoring, was running and must be stopped
    pub was_active: bool,
    /// Capture must be started with the new sources
    pub should_capture: bool,
}

/// Record new audio sources. In push-to-talk mode the hotkey backend and
/// controller run while `capturing` is false, so a running controller also
/// counts as active.
pub fn apply_sources(
    state: &mut ServiceState,
    source1_id: Option<String>,
    source2_id: Option<String>,
    ptt_controller_running: bool,
) -> (r: SourcesPlan)
    ensures
        r.was_active == (old(state).transcribe_status.capturing || (old(state).transcription_mode
            == TranscriptionMode::PushToTalk && ptt_controller_running)),
        r.should_capture == source1_id is Some,
        *final(state) == (ServiceState { source1_id, source2_id, ..*old(state) }),
{
    let was_active = state.transcribe_status.capturing || (state.transcription_mode
        == TranscriptionMode::PushToTalk && ptt_controller_running);
    state.source1_id = source1_id;
    state.source2_id = source2_id;
    SourcesPlan { was_active, should_capture: state.should_capture() }
}

/// The answer to a change of sources, given the outcome of starting capture
/// (`None` when capture was not to be started). A failure is recorded in the
/// status.
pub fn finish_sources_change(state: &mut ServiceState, started: Option<Result<(), String>>) -> (r:
    Response)
    ensures
        match started {
            Some(Err(e)) => {
                &&& is_error_with(r, e@)
                &&& *final(state) == (ServiceState {
                    transcribe_status: TranscribeStatus {
                        error: Some(e),
                        ..old(state).transcribe_status
                    },
                    ..*old(state)
                })
            },
            _ => r is Success && *final(state) == *old(state),
        },
{
    match started {
        Some(Err(e)) => {
            state.transcribe_status.error = Some(e.clone());
            Response::error(e)
        },
        _ => Response::Success,
    }
}

/// Record the echo cancellation setting; returns whether to apply it to the
/// running backend (only while capturing).
pub fn set_aec_enabled(state: &mut ServiceState, enabled: bool) -> (apply_now: bool)
    ensures
        *final(state) == (ServiceState { aec_enabled: enabled, ..*old(state) }),
        apply_now == old(state).transcribe_status.capturing,
{
    state.aec_enabled = enabled;
    state.transcribe_status.capturing
}

/// Record the recording mode; returns whether to apply it to the running
/// backend (only while capturing).
pub fn set_recording_mode(state: &mut ServiceState, mode: RecordingMode) -> (apply_now: bool)
    ensures
        *final(state) == (ServiceState { recording_mode: mode, ..*old(state) }),
        apply_now == old(state).transcribe_status.capturing,
{
    state.recording_mode = mode;
    state.transcribe_status.capturing
}

/// The status reported to a client. While capturing, the speech flag comes
/// from the transcribe state (`None` when it could not be read) and the
/// queue depth from the queue; the configuration comes from the state.
pub fn status_snapshot(state: &ServiceState, in_speech: Option<bool>, queue_depth: usize) -> (r:
    TranscribeStatus)
    ensures
        r.capturing == state.transcribe_status.capturing,
        r.in_speech == (if state.transcribe_status.capturing && in_speech is Some {
            in_speech.unwrap()
        } else {
            state.transcribe_status.in_speech
        }),
        r.queue_depth == (if state.transcribe_status.capturing {
            queue_depth
        } else {
            state.transcribe_status.queue_depth
        }),
        r.error == state.transcribe_status.error,
        r.source1_id == state.source1_id,
        r.source2_id == state.source2_id,
        r.transcription_mode == state.transcription_mode,
{
    let st = &state.transcribe_status;
    let mut speaking = st.in_speech;
    let mut depth = st.queue_depth;
    if st.capturing {
        if let Some(b) = in_speech {
            speaking = b;
        }
        depth = queue_depth;
    }
    TranscribeStatus {
        capturing: st.capturing,
        in_speech: speaking,
        queue_depth: depth,
        error: copy_opt_string(&st.error),
        source1_id: copy_opt_string(&state.source1_id),
        source2_id: copy_opt_string(&state.source2_id),
        transcription_mode: state.transcription_mode,
    }
}

/// The persisted configuration values reported to a client: mode and
/// push-to-talk hotkeys from the running state, the rest from the stored
/// configuration.
pub fn config_values(state: &ServiceState, config: &Config) -> (r: ConfigValues)
    ensures
        r.transcription_mode == state.transcription_mode,
        combination_keys(r.ptt_hotkeys@) == combination_keys(state.ptt_hotkeys@),
        combination_keys(r.auto_toggle_hotkeys@) == combination_keys(config.auto_toggle_hotkeys@),
        r.auto_paste_enabled == config.auto_paste_enabled,
        r.auto_paste_delay_ms == config.auto_paste_delay_ms,
{
    ConfigValues {
        transcription_mode: state.transcription_mode,
        ptt_hotkeys: copy_combinations(&state.ptt_hotkeys),
        auto_toggle_hotkeys: copy_combinations(&config.auto_toggle_hotkeys),
        auto_paste_enabled: config.auto_paste_enabled,
        auto_paste_delay_ms: config.auto_paste_delay_ms,
    }
}

/// The answer to a download request: refused when the model is already
/// on disk, else the download starts in the background.
pub fn download_model_response(model_exists: bool) -> (r: Response)
    ensures
        model_exists ==> is_error_with(r, "Model already downloaded"@),
        !model_exists ==> r is Success,
{
    if model_exists {
        Response::error(String::from_str("Model already downloaded"))
    } else {
        Response::Success
    }
}

/// Record a new transcription mode; returns whether capture must be
/// restarted (the mode changed and a primary source is configured).
pub fn apply_transcription_mode(state: &mut ServiceState, mode: TranscriptionMode) -> (restart:
    bool)
    ensures
        *final(state) == (ServiceState { transcription_mode: mode, ..*old(state) }),
        restart == (old(state).transcription_mode != mode && old(state).source1_id is Some),
{
    let old_mode = state.transcription_mode;
    state.transcription_mode = mode;
    old_mode != mode && state.has_primary_source()
}

/// Store the mode and push-to-talk hotkeys in the configuration, keeping
/// its other settings.
pub fn store_mode_and_hotkeys(
    config: &mut Config,
    mode: TranscriptionMode,
    hotkeys: &Vec<HotkeyCombination>,
)
    ensures
        final(config).transcription_mode == mode,
        combination_keys(final(config).ptt_hotkeys@) == combination_keys(hotkeys@),
        final(config).auto_toggle_hotkeys == old(config).auto_toggle_hotkeys,
        final(config).auto_paste_enabled == old(config).auto_paste_enabled,
        final(config).auto_paste_delay_ms == old(config).auto_paste_delay_ms,
        final(config).theme_mode == old(config).theme_mode,
{
    config.transcription_mode = mode;
    config.ptt_hotkeys = copy_combinations(hotkeys);
}

/// What a change of push-to-talk hotkeys calls for.
pub struct HotkeysChange {
    /// The hotkeys in effect before, to restore if the new ones fail
    pub old_hotkeys: Vec<HotkeyCombination>,
    /// Push-to-talk monitoring is running and must restart with the new hotkeys
    pub restart_monitoring: bool,
}

/// Record new push-to-talk hotkeys. The hotkey backend runs whenever the
/// push-to-talk controller does, whether or not audio is flowing.
pub fn apply_ptt_hotkeys(
    state: &mut ServiceState,
    hotkeys: Vec<HotkeyCombination>,
    ptt_controller_running: bool,
) -> (r: HotkeysChange)
    ensures
        r.old_hotkeys == old(state).ptt_hotkeys,
        r.restart_monitoring == (old(state).transcription_mode == TranscriptionMode::PushToTalk
            && ptt_controller_running),
        *final(state) == (ServiceState { ptt_hotkeys: hotkeys, ..*old(state) }),
{
    let mut old_hotkeys = hotkeys;
    std::mem::swap(&mut old_hotkeys, &mut state.ptt_hotkeys);
    let restart_monitoring = state.transcription_mode == TranscriptionMode::PushToTalk
        && ptt_controller_running;
    HotkeysChange { old_hotkeys, restart_monitoring }
}

/// Restarting monitoring with the new hotkeys failed: restore the old ones
/// and answer with the error.
pub fn revert_ptt_hotkeys(
    state: &mut ServiceState,
    old_hotkeys: Vec<HotkeyCombination>,
    error: String,
) -> (r: Response)
    ensures
        *final(state) == (ServiceState { ptt_hotkeys: old_hotkeys, ..*old(state) }),
        is_error_with(r, "Failed to set hotkeys: "@ + error@),
{
    state.ptt_hotkeys = old_hotkeys;
    let message = String::from_str("Failed to set hotkeys: ").concat(error.as_str());
    Response::error(message)
}

/// The push-to-talk status reported to a client; the error is the hotkey
/// backend's reason only when push-to-talk is unavailable.
pub fn ptt_status(state: &ServiceState, available: bool, unavailable_reason: Option<String>) -> (r:
    PttStatus)
    ensures
        r.mode == state.transcription_mode,
        combination_keys(r.hotkeys@) == combination_keys(state.ptt_hotkeys@),
        r.auto_toggle_hotkeys@.len() == 0,
        !r.auto_mode_active,
        r.is_active == state.is_ptt_active,
        r.available == available,
        r.error == (if available {
            None
        } else {
            unavailable_reason
        }),
        r.accessibility_permission_granted,
{
    let error = if !available {
        unavailable_reason
    } else {
        None
    };
    PttStatus {
        mode: state.transcription_mode,
        hotkeys: copy_combinations(&state.ptt_hotkeys),
        auto_toggle_hotkeys: Vec::new(),
        auto_mode_active: false,
        is_active: state.is_ptt_active,
        available,
        error,
        accessibility_permission_granted: true,
    }
}

/// Whether whisper.cpp's system info reports a usable GPU backend.
pub open spec fn gpu_runtime_available(info: Seq<char>) -> bool {
    seq_contains(info, "CUDA : ARCHS"@) || seq_contains(info, "METAL = 1"@) || seq_contains(
        info,
        "VULKAN = 1"@,
    )
}

/// Each of the three GPU backends whisper.cpp reports (CUDA architectures,
/// Metal, Vulkan) is enough on its own for the GPU to count as available,
/// and without any of them it does not.
pub proof fn lemma_gpu_backends_detected(info: Seq<char>)
    ensures
        seq_contains(info, "CUDA : ARCHS"@) ==> gpu_runtime_available(info),
        seq_contains(info, "METAL = 1"@) ==> gpu_runtime_available(info),
        seq_contains(info, "VULKAN = 1"@) ==> gpu_runtime_available(info),
        !seq_contains(info, "CUDA : ARCHS"@) && !seq_contains(info, "METAL = 1"@)
            && !seq_contains(info, "VULKAN = 1"@) ==> !gpu_runtime_available(info),
{
}

/// The GPU acceleration status, from the build flag and whisper.cpp's
/// system info (or the error reading it).
pub fn cuda_status(build_enabled: bool, system_info: Result<String, String>) -> (r: CudaStatus)
    ensures
        r.build_enabled == build_enabled,
        match system_info {
            Ok(info) => r.runtime_available == gpu_runtime_available(info@) && r.system_info@
                == info@,
            Err(e) => !r.runtime_available && r.system_info@ == "Error: "@ + e@,
        },
        system_info matches Ok(info) && seq_contains(info@, "CUDA : ARCHS"@) ==> r.runtime_available,
        system_info matches Ok(info) && seq_contains(info@, "METAL = 1"@) ==> r.runtime_available,
        system_info matches Ok(info) && seq_contains(info@, "VULKAN = 1"@) ==> r.runtime_available,
        r.runtime_available ==> (system_info matches Ok(info) && (seq_contains(
            info@,
            "CUDA : ARCHS"@,
        ) || seq_contains(info@, "METAL = 1"@) || seq_contains(info@, "VULKAN = 1"@))),
{
    match system_info {
        Ok(info) => {
            let gpu = str_contains(info.as_str(), "CUDA : ARCHS") || str_contains(
                info.as_str(),
                "METAL = 1",
            ) || str_contains(info.as_str(), "VULKAN = 1");
            CudaStatus { build_enabled, runtime_available: gpu, system_info: info }
        },
        Err(e) => {
            let text = String::from_str("Error: ").concat(e.as_str());
            CudaStatus { build_enabled, runtime_available: false, system_info: text }
        },
    }
}

/// The answer to deleting a history entry.
pub fn delete_history_response(deleted: bool, id: &String) -> (r: Response)
    ensures
        deleted ==> r is Success,
        !deleted ==> is_error_with(r, "History entry not found: "@ + id@),
{
    if deleted {
        Response::Success
    } else {
        Response::error(String::from_str("History entry not found: ").concat(id.as_str()))
    }
}

/// The answer to the requests that need no outside work: a ping and an
/// event subscription (the subscription itself is set up by the server).
pub fn immediate_response(request: &Request) -> (r: Option<Response>)
    ensures
        (*request is Ping) ==> (r matches Some(resp) && resp is Pong),
        (*request is SubscribeEvents) ==> (r matches Some(resp) && resp is Subscribed),
        !(*request is Ping || *request is SubscribeEvents) ==> r is None,
{
    match request {
        Request::Ping => Some(Response::Pong),
        Request::SubscribeEvents => Some(Response::Subscribed),
        _ => None,
    }
}

/// A rejected source change leaves the stored sources as requested and
/// reports the failure in the status; a successful one changes nothing else.
pub proof fn lemma_sources_change_reports_failure(
    before: ServiceState,
    mid: ServiceState,
    after: ServiceState,
    s1: Option<String>,
    s2: Option<String>,
    e: String,
)
    requires
        mid == (ServiceState { source1_id: s1, source2_id: s2, ..before }),
        after == (ServiceState {
            transcribe_status: TranscribeStatus { error: Some(e), ..mid.transcribe_status },
            ..mid
        }),
    ensures
        after.source1_id == s1,
        after.source2_id == s2,
        after.transcribe_status.error == Some(e),
        after.transcription_mode == before.transcription_mode,
        after.ptt_hotkeys == before.ptt_hotkeys,
{
}

/// Setting hotkeys and then reverting them restores the previous hotkeys
/// and leaves the rest of the state as it was.
pub proof fn lemma_hotkey_revert_restores(
    before: ServiceState,
    hotkeys: Vec<HotkeyCombination>,
    mid: ServiceState,
    after: ServiceState,
)
    requires
        mid == (ServiceState { ptt_hotkeys: hotkeys, ..before }),
        after == (ServiceState { ptt_hotkeys: before.ptt_hotkeys, ..mid }),
    ensures
        after == before,
{
}

/// Ready the transcription system at startup: the worker is marked as
/// running (and must be spawned) unless it already was.
pub fn init_transcription_system<S>(queue: &mut TranscriptionQueue<S>) -> (spawn_worker: bool)
    ensures
        spawn_worker == !old(queue).spec_worker_active(),
        final(queue).spec_worker_active(),
        final(queue).spec_queue() == old(queue).spec_queue(),
{
    queue.start_worker()
}

/// `ids` lists the device id `id`.
pub open spec fn lists_id(ids: Seq<String>, id: Seq<char>) -> bool {
    exists|i: int| 0 <= i < ids.len() && (#[trigger] ids[i])@ == id
}

/// Whether `ids` lists `id`.
fn has_id(ids: &Vec<String>, id: &str) -> (r: bool)
    ensures
        r == lists_id(ids@, id@),
{
    let mut i: usize = 0;
    while i < ids.len()
        invariant
            0 <= i <= ids@.len(),
            forall|k: int| 0 <= k < i ==> (#[trigger] ids@[k])@ != id@,
        decreases ids@.len() - i,
    {
        if str_eq(ids[i].as_str(), id) {
            return true;
        }
        i = i + 1;
    }
    false
}

/// The primary source capture starts with: the saved preference when the
/// device is still present, else the first input device.
pub fn resolve_primary_source(preferred: Option<String>, input_ids: &Vec<String>) -> (r: Option<
    String,
>)
    ensures
        (preferred matches Some(p) && lists_id(input_ids@, p@)) ==> r == preferred,
        !(preferred matches Some(p) && lists_id(input_ids@, p@)) ==> (if input_ids@.len() == 0 {
            r is None
        } else {
            r matches Some(x) && x@ == input_ids@[0]@
        }),
{
    if let Some(p) = preferred {
        if has_id(input_ids, p.as_str()) {
            return Some(p);
        }
    }
    if input_ids.len() == 0 {
        None
    } else {
        Some(input_ids[0].clone())
    }
}

/// The reference (system) source capture starts with: the saved
/// preference when the device is still present, else none.
pub fn resolve_reference_source(preferred: Option<String>, system_ids: &Vec<String>) -> (r: Option<
    String,
>)
    ensures
        (preferred matches Some(p) && lists_id(system_ids@, p@)) ==> r == preferred,
        !(preferred matches Some(p) && lists_id(system_ids@, p@)) ==> r is None,
{
    if let Some(p) = preferred {
        if has_id(system_ids, p.as_str()) {
            return Some(p);
        }
    }
    None
}

/// What the engine does with audio at startup.
pub enum StartupCapture {
    /// First-time setup is pending: the setup wizard starts capture
    AwaitSetup,
    /// No input device is present: wait for a client to set sources
    NoInputDevice,
    /// Set these sources and start capture
    Start { source1_id: String, source2_id: Option<String> },
}

/// Startup: once setup is done, capture starts on the resolved sources
/// when an input device is present.
pub fn startup_capture(
    first_run: bool,
    preferred1: Option<String>,
    preferred2: Option<String>,
    input_ids: &Vec<String>,
    system_ids: &Vec<String>,
) -> (r: StartupCapture)
    ensures
        first_run ==> r is AwaitSetup,
        !first_run && input_ids@.len() == 0 ==> r is NoInputDevice,
        !first_run && input_ids@.len() > 0 ==> (r matches StartupCapture::Start {
            source1_id,
            source2_id,
        } && (if preferred1 matches Some(p) && lists_id(input_ids@, p@) {
            Some(source1_id) == preferred1
        } else {
            source1_id@ == input_ids@[0]@
        }) && (if preferred2 matches Some(p) && lists_id(system_ids@, p@) {
            source2_id == preferred2
        } else {
            source2_id is None
        })),
{
    if first_run {
        return StartupCapture::AwaitSetup;
    }
    match resolve_primary_source(preferred1, input_ids) {
        Some(source1_id) => {
            let source2_id = resolve_reference_source(preferred2, system_ids);
            StartupCapture::Start { source1_id, source2_id }
        },
        None => StartupCapture::NoInputDevice,
    }
}

/// Store the auto-paste setting, keeping the rest of the configuration.
pub fn set_auto_paste(config: &mut Config, enabled: bool)
    ensures
        *final(config) == (Config { auto_paste_enabled: enabled, ..*old(config) }),
{
    config.auto_paste_enabled = enabled;
}

/// Store the theme mode, keeping the rest of the configuration.
pub fn set_theme_mode(config: &mut Config, mode: ThemeMode)
    ensures
        *final(config) == (Config { theme_mode: mode, ..*old(config) }),
{
    config.theme_mode = mode;
}

/// What starting capture begins with.
#[derive(Debug, Clone, Copy, PartialEq, Eq, Structural)]
pub enum CaptureStart {
    /// Start the hotkey backend and the push-to-talk controller; audio
    /// follows the key
    PushToTalk,
    /// Start continuous capture with speech detection
    Automatic,
}

/// Starting capture needs a primary source; the mode decides what starts.
pub fn capture_start(state: &ServiceState) -> (r: Result<CaptureStart, String>)
    ensures
        state.source1_id is None ==> (r matches Err(e) && e@
            == "No primary audio source configured"@),
        state.source1_id is Some ==> r == Ok::<CaptureStart, String>(
            if state.transcription_mode == TranscriptionMode::PushToTalk {
                CaptureStart::PushToTalk
            } else {
                CaptureStart::Automatic
            },
        ),
{
    if !state.has_primary_source() {
        return Err(String::from_str("No primary audio source configured"));
    }
    match state.transcription_mode {
        TranscriptionMode::PushToTalk => Ok(CaptureStart::PushToTalk),
        TranscriptionMode::Automatic => Ok(CaptureStart::Automatic),
    }
}

/// The error when the hotkey backend does not start.
pub fn hotkey_start_error(e: &str) -> (r: String)
    ensures
        r@ == "Failed to start PTT hotkey monitoring: "@ + e@,
{
    String::from_str("Failed to start PTT hotkey monitoring: ").concat(e)
}

/// The error when the push-to-talk controller does not start (the hotkey
/// backend is stopped again).
pub fn ptt_controller_start_error(e: &str) -> (r: String)
    ensures
        r@ == "Failed to start PTT controller: "@ + e@,
{
    String::from_str("Failed to start PTT controller: ").concat(e)
}

/// The sample rate capture starts at: the backend's, or 48 kHz without one.
pub fn capture_sample_rate(backend_rate: Option<u32>) -> (r: u32)
    ensures
        r == match backend_rate {
            Some(rate) => rate,
            None => 48000u32,
        },
{
    match backend_rate {
        Some(rate) => rate,
        None => 48000,
    }
}

/// Capture is ready: in push-to-talk mode waiting for the key (`capturing`
/// false), in automatic mode running. Any earlier error is cleared; the
/// clients are told the new capture state.
pub fn mark_capture_ready(state: &mut ServiceState, capturing: bool)
    ensures
        *final(state) == (ServiceState {
            transcribe_status: TranscribeStatus {
                capturing,
                error: None,
                ..old(state).transcribe_status
            },
            ..*old(state)
        }),
{
    state.transcribe_status.capturing = capturing;
    state.transcribe_status.error = None;
}

/// Capture stopped: not capturing and not in speech.
pub fn mark_capture_stopped(state: &mut ServiceState)
    ensures
        *final(state) == (ServiceState {
            transcribe_status: TranscribeStatus {
                capturing: false,
                in_speech: false,
                ..old(state).transcribe_status
            },
            ..*old(state)
        }),
{
    state.transcribe_status.capturing = false;
    state.transcribe_status.in_speech = false;
}

/// The configuration the application's setup wizard saves: the chosen mode
/// and push-to-talk hotkeys, the other settings as a fresh configuration
/// has them.
pub fn wizard_config(mode: TranscriptionMode, hotkeys: Vec<HotkeyCombination>) -> (r: Config)
    ensures
        r.transcription_mode == mode,
        r.ptt_hotkeys == hotkeys,
        r.auto_toggle_hotkeys@.len() == 0,
        r.auto_paste_enabled,
        r.auto_paste_delay_ms == 50,
        r.theme_mode == ThemeMode::Auto,
{
    let base = Config::default_with_hotkeys();
    Config { transcription_mode: mode, ptt_hotkeys: hotkeys, ..base }
}

/// The requests that put the wizard's choices into effect: the sources when
/// either is chosen, then the mode.
pub fn wizard_requests(
    mode: TranscriptionMode,
    source1_id: Option<String>,
    source2_id: Option<String>,
) -> (r: Vec<Request>)
    ensures
        (source1_id is Some || source2_id is Some) ==> r@ == seq![
            Request::SetSources { source1_id, source2_id },
            Request::SetTranscriptionMode { mode },
        ],
        !(source1_id is Some || source2_id is Some) ==> r@ == seq![
            Request::SetTranscriptionMode { mode },
        ],
{
    let mut r: Vec<Request> = Vec::new();
    if source1_id.is_some() || source2_id.is_some() {
        r.push(Request::SetSources { source1_id, source2_id });
    }
    r.push(Request::SetTranscriptionMode { mode });
    r
}

/// What a client makes of an answer that should be a plain success: the
/// service's error message, or `Unexpected response` for any other answer.
pub fn expect_success(response: Response) -> (r: Result<(), String>)
    ensures
        response is Success ==> r is Ok,
        response is Error ==> (r matches Err(e) && e@ == response->message@),
        !(response is Success || response is Error) ==> (r matches Err(e) && e@
            == "Unexpected response"@),
{
    match response {
        Response::Success => Ok(()),
        Response::Error { message } => Err(message),
        _ => Err(String::from_str("Unexpected response")),
    }
}

/// A client connection's subscription to the event stream.
pub struct ClientSession {
    pub subscribed: bool,
}

/// What the server does after answering a request.
#[derive(Debug, Clone, Copy, PartialEq, Eq, Structural)]
pub enum AfterRequest {
    /// Nothing more
    Nothing,
    /// The client just subscribed: it gets the current capture state at once
    SendCaptureState,
}

impl ClientSession {
    /// A connection that has not subscribed.
    pub fn new() -> (r: Self)
        ensures
            !r.subscribed,
    {
        ClientSession { subscribed: false }
    }

    /// A request arrived. A subscription request from an unsubscribed
    /// client subscribes it (the event receiver is created before the
    /// answer is sent) and is followed by the current capture state.
    pub fn on_request(&mut self, request: &Request) -> (r: AfterRequest)
        ensures
            (!old(self).subscribed && *request is SubscribeEvents) ==> (final(self).subscribed && r
                == AfterRequest::SendCaptureState),
            !(!old(self).subscribed && *request is SubscribeEvents) ==> (final(self).subscribed
                == old(self).subscribed && r == AfterRequest::Nothing),
    {
        let is_subscribe = match request {
            Request::SubscribeEvents => true,
            _ => false,
        };
        if !self.subscribed && is_subscribe {
            self.subscribed = true;
            AfterRequest::SendCaptureState
        } else {
            AfterRequest::Nothing
        }
    }

    /// The event channel closed: no more events for this client.
    pub fn on_events_closed(&mut self)
        ensures
            !final(self).subscribed,
    {
        self.subscribed = false;
    }

    /// The service is shutting down: a subscribed client is told so.
    pub fn notify_shutdown(&self) -> (r: bool)
        ensures
            r == self.subscribed,
    {
        self.subscribed
    }
}

} // verus!
