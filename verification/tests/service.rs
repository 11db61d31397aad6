use flowstt::config::Config;
use flowstt::requests::Request;
use flowstt::service::{
    apply_ptt_hotkeys, apply_sources, apply_transcription_mode, check_request, config_values,
    cuda_status, delete_history_response, device_lists_wanted, download_model_response,
    expect_success, finish_sources_change, immediate_response, init_transcription_system,
    list_devices_response, ptt_status, revert_ptt_hotkeys, set_aec_enabled, set_recording_mode,
    status_snapshot, store_mode_and_hotkeys, Response, ServiceState,
    resolve_primary_source, resolve_reference_source, startup_capture, StartupCapture,
    wizard_config, wizard_requests,
    capture_sample_rate, capture_start, hotkey_start_error, mark_capture_ready,
    mark_capture_stopped, ptt_controller_start_error, CaptureStart,
    set_auto_paste, set_theme_mode,
};
use flowstt::config::ThemeMode;
use flowstt::transcribe_mode::TranscriptionQueue;
use flowstt::types::{
    AudioDevice, AudioSourceType, HotkeyCombination, KeyCode, RecordingMode, TranscribeStatus,
    TranscriptionMode,
};

fn state() -> ServiceState {
    ServiceState {
        source1_id: None,
        source2_id: None,
        aec_enabled: false,
        recording_mode: RecordingMode::Mixed,
        transcription_mode: TranscriptionMode::PushToTalk,
        ptt_hotkeys: vec![HotkeyCombination::single(KeyCode::RightAlt)],
        transcribe_status: TranscribeStatus::default(),
        is_ptt_active: false,
    }
}

fn dev(id: &str, t: AudioSourceType) -> AudioDevice {
    AudioDevice { id: id.to_string(), name: format!("dev {}", id), source_type: t }
}

fn error_text(r: &Response) -> Option<String> {
    match r {
        Response::Error { message } => Some(message.clone()),
        _ => None,
    }
}

#[test]
fn invalid_requests_are_answered_with_the_error() {
    let r = check_request(&Request::TestAudioDevice { device_id: String::new() }).unwrap();
    assert_eq!(error_text(&r).unwrap(), "device_id cannot be empty");
    assert!(check_request(&Request::GetStatus).is_none());
}

#[test]
fn device_listing_by_source_type() {
    assert_eq!(device_lists_wanted(None), (true, true));
    assert_eq!(device_lists_wanted(Some(AudioSourceType::Input)), (true, false));
    assert_eq!(device_lists_wanted(Some(AudioSourceType::System)), (false, true));
    assert_eq!(device_lists_wanted(Some(AudioSourceType::Mixed)), (true, true));
    let r = list_devices_response(
        Some(AudioSourceType::System),
        Some((vec![dev("1", AudioSourceType::Input)], vec![dev("2", AudioSourceType::System)])),
    );
    match r {
        Response::Devices { devices } => {
            assert_eq!(devices.len(), 1);
            assert_eq!(devices[0].id, "2");
        }
        _ => panic!("expected devices"),
    }
    let r = list_devices_response(
        None,
        Some((vec![dev("1", AudioSourceType::Input)], vec![dev("2", AudioSourceType::System)])),
    );
    match r {
        Response::Devices { devices } => {
            assert_eq!(devices.len(), 2);
            assert_eq!(devices[0].id, "1");
            assert_eq!(devices[1].id, "2");
        }
        _ => panic!("expected devices"),
    }
    match list_devices_response(None, None) {
        Response::Devices { devices } => assert!(devices.is_empty()),
        _ => panic!("expected devices"),
    }
}

#[test]
fn source_change_plans_restart() {
    let mut s = state();
    s.transcribe_status.capturing = false;
    let plan = apply_sources(&mut s, Some("mic".to_string()), None, true);
    assert!(plan.was_active);
    assert!(plan.should_capture);
    assert_eq!(s.source1_id.as_deref(), Some("mic"));
    let plan = apply_sources(&mut s, None, None, false);
    assert!(!plan.was_active);
    assert!(!plan.should_capture);
}

#[test]
fn failed_capture_start_is_recorded() {
    let mut s = state();
    let r = finish_sources_change(&mut s, Some(Err("No primary audio source configured".to_string())));
    assert_eq!(error_text(&r).unwrap(), "No primary audio source configured");
    assert_eq!(s.transcribe_status.error.as_deref(), Some("No primary audio source configured"));
    let mut s = state();
    assert!(matches!(finish_sources_change(&mut s, Some(Ok(()))), Response::Success));
    assert!(matches!(finish_sources_change(&mut s, None), Response::Success));
    assert!(s.transcribe_status.error.is_none());
}

#[test]
fn settings_apply_to_backend_only_while_capturing() {
    let mut s = state();
    assert!(!set_aec_enabled(&mut s, true));
    assert!(s.aec_enabled);
    s.transcribe_status.capturing = true;
    assert!(set_recording_mode(&mut s, RecordingMode::EchoCancel));
    assert_eq!(s.recording_mode, RecordingMode::EchoCancel);
}

#[test]
fn status_snapshot_reads_live_values_while_capturing() {
    let mut s = state();
    s.source1_id = Some("a".to_string());
    s.transcribe_status.capturing = true;
    let st = status_snapshot(&s, Some(true), 4);
    assert!(st.in_speech);
    assert_eq!(st.queue_depth, 4);
    assert_eq!(st.source1_id.as_deref(), Some("a"));
    s.transcribe_status.capturing = false;
    let st = status_snapshot(&s, Some(true), 4);
    assert!(!st.in_speech);
    assert_eq!(st.queue_depth, 0);
}

#[test]
fn config_values_merge_state_and_file() {
    let s = state();
    let mut c = Config::default_with_hotkeys();
    c.auto_paste_enabled = false;
    c.auto_paste_delay_ms = 99;
    let v = config_values(&s, &c);
    assert_eq!(v.transcription_mode, TranscriptionMode::PushToTalk);
    assert_eq!(v.ptt_hotkeys[0].keys, vec![KeyCode::RightAlt]);
    assert!(!v.auto_paste_enabled);
    assert_eq!(v.auto_paste_delay_ms, 99);
}

#[test]
fn model_download_refused_when_present() {
    assert_eq!(error_text(&download_model_response(true)).unwrap(), "Model already downloaded");
    assert!(matches!(download_model_response(false), Response::Success));
}

#[test]
fn mode_change_restarts_only_when_ready_and_changed() {
    let mut s = state();
    assert!(!apply_transcription_mode(&mut s, TranscriptionMode::Automatic));
    s.source1_id = Some("a".to_string());
    assert!(apply_transcription_mode(&mut s, TranscriptionMode::PushToTalk));
    assert!(!apply_transcription_mode(&mut s, TranscriptionMode::PushToTalk));
    let mut c = Config::default();
    store_mode_and_hotkeys(&mut c, TranscriptionMode::Automatic, &vec![HotkeyCombination::single(KeyCode::F2)]);
    assert_eq!(c.transcription_mode, TranscriptionMode::Automatic);
    assert_eq!(c.ptt_hotkeys[0].keys, vec![KeyCode::F2]);
}

#[test]
fn hotkey_change_reverts_on_failure() {
    let mut s = state();
    let change = apply_ptt_hotkeys(&mut s, vec![HotkeyCombination::single(KeyCode::F7)], true);
    assert!(change.restart_monitoring);
    assert_eq!(s.ptt_hotkeys[0].keys, vec![KeyCode::F7]);
    let r = revert_ptt_hotkeys(&mut s, change.old_hotkeys, "busy".to_string());
    assert_eq!(error_text(&r).unwrap(), "Failed to set hotkeys: busy");
    assert_eq!(s.ptt_hotkeys[0].keys, vec![KeyCode::RightAlt]);
}

#[test]
fn ptt_status_reports_reason_only_when_unavailable() {
    let s = state();
    let st = ptt_status(&s, false, Some("no permission".to_string()));
    assert_eq!(st.error.as_deref(), Some("no permission"));
    assert!(!st.available);
    let st = ptt_status(&s, true, Some("ignored".to_string()));
    assert!(st.error.is_none());
    assert!(st.accessibility_permission_granted);
}

#[test]
fn cuda_status_from_system_info() {
    let st = cuda_status(true, Ok("AVX = 1 | CUDA : ARCHS = 890 |".to_string()));
    assert!(st.runtime_available);
    assert!(st.build_enabled);
    let st = cuda_status(false, Ok("CUDA = 0 | METAL = 0".to_string()));
    assert!(!st.runtime_available);
    let st = cuda_status(false, Ok("VULKAN = 1".to_string()));
    assert!(st.runtime_available);
    let st = cuda_status(false, Err("no library".to_string()));
    assert!(!st.runtime_available);
    assert_eq!(st.system_info, "Error: no library");
}

#[test]
fn history_delete_answers() {
    assert!(matches!(delete_history_response(true, &"x".to_string()), Response::Success));
    let r = delete_history_response(false, &"abc".to_string());
    assert_eq!(error_text(&r).unwrap(), "History entry not found: abc");
}

#[test]
fn immediate_answers_and_client_view() {
    assert!(matches!(immediate_response(&Request::Ping), Some(Response::Pong)));
    assert!(matches!(immediate_response(&Request::SubscribeEvents), Some(Response::Subscribed)));
    assert!(immediate_response(&Request::GetStatus).is_none());
    assert_eq!(expect_success(Response::Success), Ok(()));
    assert_eq!(expect_success(Response::error("bad".to_string())), Err("bad".to_string()));
    assert_eq!(expect_success(Response::Pong), Err("Unexpected response".to_string()));
}

#[test]
fn transcription_system_starts_worker_once() {
    let mut q: TranscriptionQueue<u32> = TranscriptionQueue::new();
    assert!(init_transcription_system(&mut q));
    assert!(q.is_worker_active());
    assert!(!init_transcription_system(&mut q));
}

fn ids(v: &[&str]) -> Vec<String> {
    v.iter().map(|s| s.to_string()).collect()
}

#[test]
fn startup_source_resolution() {
    let inputs = ids(&["mic-a", "mic-b"]);
    let systems = ids(&["mon-1"]);
    assert_eq!(resolve_primary_source(Some("mic-b".to_string()), &inputs), Some("mic-b".to_string()));
    assert_eq!(resolve_primary_source(Some("gone".to_string()), &inputs), Some("mic-a".to_string()));
    assert_eq!(resolve_primary_source(None, &inputs), Some("mic-a".to_string()));
    assert_eq!(resolve_primary_source(Some("mic-a".to_string()), &vec![]), None);
    assert_eq!(resolve_reference_source(Some("mon-1".to_string()), &systems), Some("mon-1".to_string()));
    assert_eq!(resolve_reference_source(Some("gone".to_string()), &systems), None);
    assert_eq!(resolve_reference_source(None, &systems), None);
}

#[test]
fn startup_capture_plan() {
    let inputs = ids(&["mic-a"]);
    let systems = ids(&["mon-1"]);
    assert!(matches!(startup_capture(true, None, None, &inputs, &systems), StartupCapture::AwaitSetup));
    assert!(matches!(startup_capture(false, None, None, &vec![], &systems), StartupCapture::NoInputDevice));
    match startup_capture(false, None, Some("mon-1".to_string()), &inputs, &systems) {
        StartupCapture::Start { source1_id, source2_id } => {
            assert_eq!(source1_id, "mic-a");
            assert_eq!(source2_id, Some("mon-1".to_string()));
        }
        _ => panic!("capture should start"),
    }
}

#[test]
fn setup_wizard_saves_and_applies_choices() {
    let hk = vec![HotkeyCombination::new(vec![KeyCode::F13])];
    let c = wizard_config(TranscriptionMode::Automatic, hk);
    assert_eq!(c.transcription_mode, TranscriptionMode::Automatic);
    assert_eq!(c.ptt_hotkeys, vec![HotkeyCombination::new(vec![KeyCode::F13])]);
    assert!(c.auto_toggle_hotkeys.is_empty());
    assert!(c.auto_paste_enabled);
    assert_eq!(c.auto_paste_delay_ms, 50);

    let r = wizard_requests(TranscriptionMode::PushToTalk, Some("mic".to_string()), None);
    assert_eq!(r.len(), 2);
    match &r[0] {
        Request::SetSources { source1_id, source2_id } => {
            assert_eq!(source1_id.as_deref(), Some("mic"));
            assert!(source2_id.is_none());
        }
        other => panic!("unexpected {:?}", other),
    }
    assert!(matches!(r[1], Request::SetTranscriptionMode { mode: TranscriptionMode::PushToTalk }));
    let r = wizard_requests(TranscriptionMode::Automatic, None, None);
    assert_eq!(r.len(), 1);
    assert!(matches!(r[0], Request::SetTranscriptionMode { mode: TranscriptionMode::Automatic }));
}

#[test]
fn starting_and_stopping_capture() {
    let mut st = state();
    assert_eq!(capture_start(&st), Err("No primary audio source configured".to_string()));
    st.source1_id = Some("mic".to_string());
    assert_eq!(capture_start(&st), Ok(CaptureStart::PushToTalk));
    st.transcription_mode = TranscriptionMode::Automatic;
    assert_eq!(capture_start(&st), Ok(CaptureStart::Automatic));
    assert_eq!(hotkey_start_error("denied"), "Failed to start PTT hotkey monitoring: denied");
    assert_eq!(ptt_controller_start_error("busy"), "Failed to start PTT controller: busy");
    assert_eq!(capture_sample_rate(Some(44100)), 44100);
    assert_eq!(capture_sample_rate(None), 48000);

    st.transcribe_status.error = Some("old".to_string());
    st.transcribe_status.in_speech = true;
    mark_capture_ready(&mut st, true);
    assert!(st.transcribe_status.capturing);
    assert_eq!(st.transcribe_status.error, None);
    assert!(st.transcribe_status.in_speech);
    mark_capture_stopped(&mut st);
    assert!(!st.transcribe_status.capturing);
    assert!(!st.transcribe_status.in_speech);
    assert_eq!(st.source1_id.as_deref(), Some("mic"));
}

#[test]
fn stored_switches() {
    let mut c = Config::default_with_hotkeys();
    set_auto_paste(&mut c, false);
    assert!(!c.auto_paste_enabled);
    assert_eq!(c.auto_paste_delay_ms, 50);
    set_theme_mode(&mut c, ThemeMode::Dark);
    assert_eq!(c.theme_mode, ThemeMode::Dark);
    assert!(!c.auto_paste_enabled);
}
