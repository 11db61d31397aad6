use flowstt::cli::{
    download_outcome, expect_cuda_status, expect_devices, expect_model_status, expect_ok,
    expect_status, ping_answer, ping_outcome, subscribe_answer, DownloadOutcome,
    devices_heading, gpu_status_lines, model_status_lines, source_badge, status_lines,
    stream_action, StreamAction, StreamEvent,
};
use flowstt::requests::Request;
use flowstt::service::{AfterRequest, ClientSession, Response};
use flowstt::types::{CudaStatus, ModelStatus};
use flowstt::types::{AudioSourceType, TranscribeStatus, TranscriptionMode};

#[test]
fn device_listing_heading_and_badges() {
    assert_eq!(devices_heading(0), "No audio devices found");
    assert_eq!(devices_heading(1), "1 device found:\n");
    assert_eq!(devices_heading(12), "12 devices found:\n");
    assert_eq!(source_badge(AudioSourceType::System), "[system]");
}

#[test]
fn status_display() {
    let mut st = TranscribeStatus::default();
    assert_eq!(status_lines(&st), vec!["Capture: idle".to_string(), "Mode: push-to-talk".to_string()]);
    st.capturing = true;
    st.in_speech = true;
    st.queue_depth = 3;
    st.transcription_mode = TranscriptionMode::Automatic;
    st.source1_id = Some("mic".to_string());
    st.error = Some("oops".to_string());
    assert_eq!(
        status_lines(&st),
        vec![
            "Capture: capturing".to_string(),
            "Mode: automatic".to_string(),
            "Source: mic".to_string(),
            "Error: oops".to_string(),
            "Speech: speaking".to_string(),
            "Queue depth: 3".to_string(),
        ]
    );
}

#[test]
fn model_and_gpu_display() {
    assert_eq!(
        model_status_lines(false, "/m.bin"),
        vec![
            "Model: not available".to_string(),
            "Path: /m.bin".to_string(),
            String::new(),
            "Run 'flowstt model download' to download the model".to_string(),
        ]
    );
    assert_eq!(model_status_lines(true, "/m.bin").len(), 2);
    let g = gpu_status_lines(true, false, "info");
    assert_eq!(g[1], "  Build: enabled");
    assert_eq!(g[2], "  Runtime: not available");
    assert_eq!(g[4], "  info");
}

#[test]
fn streamed_events() {
    match stream_action(StreamEvent::TranscriptionComplete { text: "hi".to_string() }, true, false) {
        StreamAction::Print(t) => assert_eq!(t, "hi"),
        _ => panic!("expected print"),
    }
    assert!(matches!(stream_action(StreamEvent::SpeechStarted, false, false), StreamAction::Ignore));
    match stream_action(StreamEvent::SpeechEnded { duration_ms: 1500 }, false, true) {
        StreamAction::Note(t) => assert_eq!(t, "[speech ended: 1500ms]"),
        _ => panic!("expected note"),
    }
    match stream_action(
        StreamEvent::CaptureStateChanged { capturing: false, error: Some("gone".to_string()) },
        true,
        false,
    ) {
        StreamAction::NoteAndStop(t) => assert_eq!(t, "Capture error: gone"),
        _ => panic!("expected stop"),
    }
    assert!(matches!(
        stream_action(StreamEvent::CaptureStateChanged { capturing: false, error: None }, true, false),
        StreamAction::Stop
    ));
    assert!(matches!(
        stream_action(StreamEvent::CaptureStateChanged { capturing: true, error: None }, false, false),
        StreamAction::Ignore
    ));
    match stream_action(StreamEvent::Shutdown, false, false) {
        StreamAction::NoteAndStop(t) => assert_eq!(t, "Service shutting down"),
        _ => panic!("expected stop"),
    }
}

#[test]
fn client_session_subscription() {
    let mut s = ClientSession::new();
    assert!(!s.notify_shutdown());
    assert_eq!(s.on_request(&Request::GetStatus), AfterRequest::Nothing);
    assert_eq!(s.on_request(&Request::SubscribeEvents), AfterRequest::SendCaptureState);
    assert!(s.notify_shutdown());
    assert_eq!(s.on_request(&Request::SubscribeEvents), AfterRequest::Nothing);
    s.on_events_closed();
    assert!(!s.subscribed);
}

#[test]
fn answers_of_the_wrong_kind_fail() {
    assert!(expect_devices(Response::Devices { devices: vec![] }).ok().unwrap().is_empty());
    let e = expect_devices(Response::Pong).err().unwrap();
    assert_eq!(e.message, "Unexpected response");
    assert_eq!(e.exit_code, 1);
    let e = expect_status(Response::error("down".to_string())).err().unwrap();
    assert_eq!(e.message, "down");
    assert!(expect_status(Response::Status(TranscribeStatus::default())).is_ok());
    let m = expect_model_status(Response::ModelStatus(ModelStatus { available: true, path: "p".to_string() }));
    assert_eq!(m.ok().unwrap().path, "p");
    let c = expect_cuda_status(Response::CudaStatus(CudaStatus {
        build_enabled: false,
        runtime_available: true,
        system_info: "i".to_string(),
    }));
    assert!(c.ok().unwrap().runtime_available);
    assert!(expect_ok(Response::Success).is_ok());
    assert_eq!(expect_ok(Response::Subscribed).err().unwrap().message, "Unexpected response");
    assert_eq!(download_outcome(Response::Success).ok(), Some(DownloadOutcome::Started));
    assert_eq!(
        download_outcome(Response::error("Model already downloaded".to_string())).ok(),
        Some(DownloadOutcome::AlreadyDownloaded)
    );
    assert_eq!(download_outcome(Response::error("disk full".to_string())).err().unwrap().message, "disk full");
    assert!(ping_outcome(Ok(true)).is_ok());
    assert_eq!(ping_outcome(Ok(false)).err().unwrap().message, "Service not responding");
    assert_eq!(ping_outcome(Err("refused".to_string())).err().unwrap().message, "refused");
}

#[test]
fn ping_and_subscription_answers() {
    assert_eq!(ping_answer(Response::Pong), Ok(true));
    assert_eq!(ping_answer(Response::error("busy".to_string())), Err("busy".to_string()));
    assert_eq!(ping_answer(Response::Success), Err("Unexpected response".to_string()));
    assert_eq!(subscribe_answer(Response::Subscribed), Ok(()));
    assert_eq!(subscribe_answer(Response::error("no".to_string())), Err("no".to_string()));
    assert_eq!(subscribe_answer(Response::Pong), Err("Failed to subscribe to events".to_string()));
}
