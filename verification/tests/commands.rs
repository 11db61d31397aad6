use flowstt::commands::{
    answer_error, cuda_status_answer, devices_answer, model_status_answer, ptt_status_answer,
    status_answer,
};
use flowstt::service::Response;
use flowstt::types::{
    AudioDevice, AudioSourceType, CudaStatus, ModelStatus, PttStatus, TranscribeStatus,
    TranscriptionMode,
};

#[test]
fn window_command_answers() {
    assert_eq!(answer_error(Response::error("boom".to_string())), "boom");
    assert_eq!(answer_error(Response::Pong), "Unexpected response");

    let mut st = TranscribeStatus::default();
    st.capturing = true;
    assert!(status_answer(Response::Status(st)).unwrap().capturing);
    assert_eq!(status_answer(Response::Pong).err().unwrap(), "Unexpected response");

    let mut p = PttStatus::default();
    p.mode = TranscriptionMode::Automatic;
    assert_eq!(ptt_status_answer(Response::PttStatus(p)).unwrap().mode, TranscriptionMode::Automatic);
    assert_eq!(ptt_status_answer(Response::error("no ptt".to_string())).err().unwrap(), "no ptt");

    let c = CudaStatus { build_enabled: true, runtime_available: false, system_info: "x".to_string() };
    assert_eq!(cuda_status_answer(Response::CudaStatus(c)).unwrap().system_info, "x");
    assert!(cuda_status_answer(Response::Success).is_err());

    let m = ModelStatus { available: false, path: "/m".to_string() };
    assert_eq!(model_status_answer(Response::ModelStatus(m)).unwrap().path, "/m");
    assert_eq!(model_status_answer(Response::Subscribed).err().unwrap(), "Unexpected response");

    let d = AudioDevice { id: "1".to_string(), name: "Mic".to_string(), source_type: AudioSourceType::Input };
    assert_eq!(devices_answer(Response::Devices { devices: vec![d] }).unwrap()[0].name, "Mic");
    assert_eq!(devices_answer(Response::error("x".to_string())).err().unwrap(), "x");
}
