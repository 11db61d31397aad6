use flowstt::engine::{
    bundle_paths, check_gpu, clipboard_text, detect_runtime_mode, is_app_log_file, parse_log_level,
    should_paste, start_test_capture, stop_test_capture, with_exe_suffix, LevelBatcher, LogLevel,
    StubBackend, TestCaptureSlot, TestCaptureStart,
    cancels_window_mode, frontend_event_name, is_app_executable, EngineEventKind,
    close_hides_window, has_flag, startup_window, StartupWindow,
    is_app_file_name, runtime_mode_named,
    is_wayland_name, is_wayland_session,
};
use flowstt::types::{RecordingMode, RuntimeMode};

#[test]
fn gpu_report() {
    let r = check_gpu(Ok(()), Ok("CUDA = 1 | METAL = 0".to_string())).unwrap();
    assert_eq!(
        r,
        "System Info: CUDA = 1 | METAL = 0\n\nGPU Backends:\n  CUDA:   YES\n  Metal:  NO\n  Vulkan: NO"
    );
    assert_eq!(check_gpu(Err("no lib".to_string()), Ok(String::new())), Err("no lib".to_string()));
    assert_eq!(check_gpu(Ok(()), Err("no info".to_string())), Err("no info".to_string()));
}

#[test]
fn clipboard_text_skips_empty_and_placeholder() {
    assert_eq!(clipboard_text("  hello \n"), Some("hello".to_string()));
    assert_eq!(clipboard_text("   "), None);
    assert_eq!(clipboard_text(" (No speech detected) "), None);
    assert!(should_paste(true, true, false));
    assert!(!should_paste(true, true, true));
    assert!(!should_paste(true, false, false));
    assert!(!should_paste(false, true, false));
}

#[test]
fn runtime_mode_detection() {
    assert_eq!(detect_runtime_mode(Some("DEV".to_string()), None, false), RuntimeMode::Development);
    assert_eq!(
        detect_runtime_mode(Some("production".to_string()), Some("/x/target/debug/app".to_string()), false),
        RuntimeMode::Production
    );
    assert_eq!(
        detect_runtime_mode(Some("other".to_string()), Some("/x/target/debug/app".to_string()), false),
        RuntimeMode::Development
    );
    assert_eq!(
        detect_runtime_mode(None, Some("C:\\p\\target\\release\\app.exe".to_string()), true),
        RuntimeMode::Development
    );
    assert_eq!(
        detect_runtime_mode(None, Some("/p/target/release/app".to_string()), false),
        RuntimeMode::Production
    );
    assert_eq!(detect_runtime_mode(None, None, true), RuntimeMode::Production);
}

#[test]
fn binaries_and_bundles() {
    assert_eq!(with_exe_suffix("flowstt", true), "flowstt.exe");
    assert_eq!(with_exe_suffix("flowstt", false), "flowstt");
    let e = bundle_paths("s".to_string(), "\"s\"", false, "c".to_string(), "\"c\"", true).err().unwrap();
    assert_eq!(e.message, "Service binary not found: \"s\"");
    let e = bundle_paths("s".to_string(), "\"s\"", true, "c".to_string(), "\"c\"", false).err().unwrap();
    assert_eq!(e.message, "CLI binary not found: \"c\"");
    let p = bundle_paths("s".to_string(), "\"s\"", true, "c".to_string(), "\"c\"", true).ok().unwrap();
    assert_eq!(p.service, "s");
    assert_eq!(p.cli, "c");
}

#[test]
fn stub_backend_reports_not_implemented() {
    let b = StubBackend::new(true, RecordingMode::EchoCancel).ok().unwrap();
    assert!(b.aec_enabled);
    assert!(b.list_input_devices().is_empty());
    assert!(b.list_system_devices().is_empty());
    assert_eq!(b.sample_rate(), 48000);
    assert_eq!(
        b.start_capture_sources(None, None),
        Err("Audio capture is not yet implemented for macOS. Full CoreAudio support coming soon.".to_string())
    );
    assert_eq!(b.stop_capture(), Err("Audio capture is not yet implemented for macOS.".to_string()));
    assert!(b.try_recv::<f32>().is_none());
}

#[test]
fn device_test_capture_slot() {
    let mut slot = TestCaptureSlot::new();
    assert_eq!(start_test_capture(&mut slot, "a".to_string()), TestCaptureStart::Start { stop_previous: false });
    assert_eq!(start_test_capture(&mut slot, "a".to_string()), TestCaptureStart::AlreadyTesting);
    assert_eq!(start_test_capture(&mut slot, "b".to_string()), TestCaptureStart::Start { stop_previous: true });
    assert!(stop_test_capture(&mut slot));
    assert!(!stop_test_capture(&mut slot));
}

#[test]
fn level_batches_of_a_tenth_second() {
    let mut b: LevelBatcher<f32> = LevelBatcher::new(40);
    assert_eq!(b.samples_per_update, 4);
    assert!(b.push(&vec![0.1, 0.2]).is_none());
    assert_eq!(b.push(&vec![0.3, 0.4, 0.5]), Some(vec![0.1, 0.2, 0.3, 0.4, 0.5]));
    assert!(b.accumulated.is_empty());
}

#[test]
fn log_levels_and_files() {
    assert_eq!(parse_log_level("debug"), Ok(LogLevel::Debug));
    assert_eq!(parse_log_level("loud"), Err("Unknown log level: loud".to_string()));
    assert_eq!(LogLevel::Warn.as_filter_str(), "warn");
    assert!(is_app_log_file("flowstt-app.2024-01-01.log"));
    assert!(!is_app_log_file("other.log"));
}

#[test]
fn window_event_names() {
    let all = [
        (EngineEventKind::VisualizationData, "visualization-data"),
        (EngineEventKind::TranscriptionComplete, "transcription-complete"),
        (EngineEventKind::SpeechStarted, "speech-started"),
        (EngineEventKind::SpeechEnded, "speech-ended"),
        (EngineEventKind::CaptureStateChanged, "capture-state-changed"),
        (EngineEventKind::ModelDownloadProgress, "model-download-progress"),
        (EngineEventKind::ModelDownloadComplete, "model-download-complete"),
        (EngineEventKind::AudioLevelUpdate, "audio-level-update"),
        (EngineEventKind::PttPressed, "ptt-pressed"),
        (EngineEventKind::PttReleased, "ptt-released"),
        (EngineEventKind::TranscriptionModeChanged, "transcription-mode-changed"),
        (EngineEventKind::AutoModeToggled, "auto-mode-toggled"),
        (EngineEventKind::HistoryEntryDeleted, "history-entry-deleted"),
        (EngineEventKind::Shutdown, "service-shutdown"),
    ];
    for (kind, name) in all {
        assert_eq!(frontend_event_name(kind), name);
    }
    for (a, _) in all {
        for (b, _) in all {
            assert_eq!(a == b, frontend_event_name(a) == frontend_event_name(b));
        }
    }
}

#[test]
fn window_mode_cancelled_after_transcription_on_windows() {
    assert!(cancels_window_mode(EngineEventKind::TranscriptionComplete, true));
    assert!(!cancels_window_mode(EngineEventKind::TranscriptionComplete, false));
    assert!(!cancels_window_mode(EngineEventKind::SpeechEnded, true));
}

#[test]
fn foreground_application_check() {
    assert!(is_app_executable("C:\\Program Files\\FlowSTT\\FlowSTT-App.EXE", true));
    assert!(is_app_executable("flowstt-app.exe", true));
    assert!(!is_app_executable("C:\\Windows\\notepad.exe", true));
    assert!(!is_app_executable("C:\\flowstt-app.exe\\other.exe", true));
    assert!(is_app_executable("FlowSTT-App", false));
    assert!(!is_app_executable("flowstt-app.exe", false));
    assert!(!is_app_executable("firefox", false));
}

#[test]
fn startup_flags_and_window() {
    let args = vec!["flowstt-app".to_string(), "--headless".to_string()];
    assert!(has_flag(&args, "--headless"));
    assert!(!has_flag(&args, "--test-mode"));
    assert!(!has_flag(&vec![], "--headless"));
    assert_eq!(startup_window(true, false), StartupWindow::SetupWizard);
    assert_eq!(startup_window(true, true), StartupWindow::TrayOnly);
    assert_eq!(startup_window(false, true), StartupWindow::TrayOnly);
    assert_eq!(startup_window(false, false), StartupWindow::Main);
    assert!(close_hides_window("main", true));
    assert!(!close_hides_window("main", false));
    assert!(!close_hides_window("logs", true));
}

#[test]
fn lower_case_names() {
    assert_eq!(runtime_mode_named("dev"), Some(RuntimeMode::Development));
    assert_eq!(runtime_mode_named("development"), Some(RuntimeMode::Development));
    assert_eq!(runtime_mode_named("prod"), Some(RuntimeMode::Production));
    assert_eq!(runtime_mode_named("production"), Some(RuntimeMode::Production));
    assert_eq!(runtime_mode_named("DEV"), None);
    assert_eq!(runtime_mode_named("staging"), None);
    assert!(is_app_file_name("flowstt-app.exe", true));
    assert!(!is_app_file_name("FlowSTT-App.exe", true));
    assert!(is_app_file_name("flowstt-app", false));
}

#[test]
fn wayland_detection() {
    assert!(is_wayland_session(true, None));
    assert!(is_wayland_session(false, Some("Wayland")));
    assert!(!is_wayland_session(false, Some("x11")));
    assert!(!is_wayland_session(false, None));
    assert!(is_wayland_name("wayland"));
    assert!(!is_wayland_name("Wayland"));
}
