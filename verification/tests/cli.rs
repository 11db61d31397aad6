use flowstt::cli::{
    check_transcribe_sources, download_error_is_notice, format_hotkeys_display, is_no_hotkeys_value,
    mode_config_name, mode_status_name, mode_title, parse_transcription_mode_value, setup_config,
    setup_device_index, setup_download_accepted, setup_mode_choice, setup_ptt_choice,
    setup_rerun_confirmed, setup_toggle_choice, validate_config_key, CliError,
    apply_setting, config_show_lines, config_value_text, setting_confirmation, setting_key,
    setting_request, ConfigSetting,
    pick_app_path, start_timeout_message, ConnectAction, ConnectOrSpawn, SPAWN_RETRIES,
    expect_config_values, stored_config_values,
};
use flowstt::service::Response;
use flowstt::config::Config;
use flowstt::requests::Request;
use flowstt::types::{ConfigValues, HotkeyCombination, KeyCode, TranscriptionMode};

#[test]
fn error_exit_codes() {
    assert_eq!(CliError::general("x".to_string()).exit_code, 1);
    assert_eq!(CliError::usage("x".to_string()).exit_code, 64);
    let e = CliError::new("boom".to_string(), 3);
    assert_eq!(e.message, "boom");
    assert_eq!(e.exit_code, 3);
}

#[test]
fn config_keys_are_validated() {
    assert!(validate_config_key("transcription_mode").is_ok());
    assert!(validate_config_key("ptt_hotkeys").is_ok());
    assert!(validate_config_key("auto_toggle_hotkeys").is_ok());
    let e = validate_config_key("colour").unwrap_err();
    assert_eq!(e.exit_code, 64);
    assert_eq!(
        e.message,
        "Unknown configuration key 'colour'. Valid keys: transcription_mode, ptt_hotkeys, auto_toggle_hotkeys"
    );
}

#[test]
fn hotkeys_display() {
    assert_eq!(format_hotkeys_display(&vec![]), "(none)");
    let hk = vec![HotkeyCombination::single(KeyCode::F13), HotkeyCombination::single(KeyCode::F14)];
    assert_eq!(format_hotkeys_display(&hk), "F13, F14");
}

#[test]
fn transcription_mode_values() {
    assert_eq!(parse_transcription_mode_value("automatic").ok(), Some(TranscriptionMode::Automatic));
    assert_eq!(parse_transcription_mode_value("push_to_talk").ok(), Some(TranscriptionMode::PushToTalk));
    let e = parse_transcription_mode_value("ptt").err().unwrap();
    assert_eq!(e.exit_code, 64);
    assert_eq!(e.message, "Invalid value 'ptt' for transcription_mode. Expected: automatic, push_to_talk");
    assert_eq!(mode_config_name(TranscriptionMode::PushToTalk), "push_to_talk");
    assert_eq!(mode_status_name(TranscriptionMode::PushToTalk), "push-to-talk");
    assert_eq!(mode_title(TranscriptionMode::Automatic), "Automatic");
}

#[test]
fn no_hotkeys_values() {
    assert!(is_no_hotkeys_value("null"));
    assert!(is_no_hotkeys_value("none"));
    assert!(is_no_hotkeys_value("[]"));
    assert!(!is_no_hotkeys_value("None"));
}

#[test]
fn transcribe_needs_a_source() {
    let e = check_transcribe_sources(&None, &None).err().unwrap();
    assert_eq!(e.exit_code, 1);
    assert_eq!(e.message, "At least one audio source is required. Use 'flowstt list' to see devices.");
    assert!(check_transcribe_sources(&Some("1".to_string()), &None).is_ok());
    assert!(check_transcribe_sources(&None, &Some("2".to_string())).is_ok());
}

#[test]
fn download_notice() {
    assert!(download_error_is_notice("Model already downloaded"));
    assert!(!download_error_is_notice("network down"));
}

#[test]
fn setup_answers() {
    assert!(setup_rerun_confirmed("Y"));
    assert!(!setup_rerun_confirmed(""));
    assert!(setup_download_accepted(""));
    assert!(setup_download_accepted("y"));
    assert!(!setup_download_accepted("n"));
    assert_eq!(setup_device_index("1", 3), Some(0));
    assert_eq!(setup_device_index("3", 3), Some(2));
    assert_eq!(setup_device_index("+2", 3), Some(1));
    assert_eq!(setup_device_index("0", 3), None);
    assert_eq!(setup_device_index("4", 3), None);
    assert_eq!(setup_device_index("", 3), None);
    assert_eq!(setup_device_index("two", 3), None);
    assert_eq!(setup_mode_choice("1"), TranscriptionMode::Automatic);
    assert_eq!(setup_mode_choice("2"), TranscriptionMode::PushToTalk);
    assert_eq!(setup_mode_choice(""), TranscriptionMode::PushToTalk);
    assert_eq!(setup_ptt_choice(None).keys, vec![KeyCode::RightAlt]);
    assert_eq!(setup_ptt_choice(Some(KeyCode::F5)).keys, vec![KeyCode::F5]);
}

#[test]
fn setup_toggle_hotkeys() {
    assert!(setup_toggle_choice("NONE", None).is_empty());
    assert!(setup_toggle_choice("disabled", Some(KeyCode::F1)).is_empty());
    assert_eq!(setup_toggle_choice("", None)[0].keys, vec![KeyCode::F13]);
    assert_eq!(setup_toggle_choice("f5", Some(KeyCode::F5))[0].keys, vec![KeyCode::F5]);
    assert_eq!(setup_toggle_choice("bogus", None)[0].keys, vec![KeyCode::F13]);
}

#[test]
fn setup_saves_chosen_values() {
    let c = setup_config(
        TranscriptionMode::Automatic,
        HotkeyCombination::single(KeyCode::F9),
        vec![],
    );
    assert_eq!(c.transcription_mode, TranscriptionMode::Automatic);
    assert_eq!(c.ptt_hotkeys.len(), 1);
    assert_eq!(c.ptt_hotkeys[0].keys, vec![KeyCode::F9]);
    assert!(c.auto_toggle_hotkeys.is_empty());
    assert!(c.auto_paste_enabled);
    assert_eq!(c.auto_paste_delay_ms, 50);
}

fn ctrl_alt() -> Vec<HotkeyCombination> {
    vec![HotkeyCombination::new(vec![KeyCode::LeftControl, KeyCode::LeftAlt])]
}

#[test]
fn config_set_writes_one_field() {
    let mut c = Config::default();
    c.auto_paste_enabled = true;
    apply_setting(&mut c, ConfigSetting::TranscriptionMode(TranscriptionMode::Automatic));
    assert_eq!(c.transcription_mode, TranscriptionMode::Automatic);
    assert!(c.auto_paste_enabled);
    assert!(c.ptt_hotkeys.is_empty());
    apply_setting(&mut c, ConfigSetting::PttHotkeys(ctrl_alt()));
    assert_eq!(c.ptt_hotkeys, ctrl_alt());
    assert_eq!(c.transcription_mode, TranscriptionMode::Automatic);
    apply_setting(&mut c, ConfigSetting::AutoToggleHotkeys(vec![]));
    assert!(c.auto_toggle_hotkeys.is_empty());
    assert_eq!(c.ptt_hotkeys, ctrl_alt());
}

#[test]
fn config_set_online_requests() {
    assert!(matches!(
        setting_request(ConfigSetting::TranscriptionMode(TranscriptionMode::PushToTalk)),
        Request::SetTranscriptionMode { mode: TranscriptionMode::PushToTalk }
    ));
    match setting_request(ConfigSetting::PttHotkeys(ctrl_alt())) {
        Request::SetPushToTalkHotkeys { hotkeys } => assert_eq!(hotkeys, ctrl_alt()),
        other => panic!("unexpected request {:?}", other),
    }
    match setting_request(ConfigSetting::AutoToggleHotkeys(vec![])) {
        Request::SetAutoToggleHotkeys { hotkeys } => assert!(hotkeys.is_empty()),
        other => panic!("unexpected request {:?}", other),
    }
}

#[test]
fn config_set_confirmation() {
    let s = ConfigSetting::TranscriptionMode(TranscriptionMode::Automatic);
    assert_eq!(setting_key(&s), "transcription_mode");
    assert_eq!(setting_confirmation(&s), "Set transcription_mode = automatic");
    let s = ConfigSetting::PttHotkeys(ctrl_alt());
    assert_eq!(setting_key(&s), "ptt_hotkeys");
    assert_eq!(setting_confirmation(&s), "Set ptt_hotkeys = Left Alt + Left Ctrl");
    let s = ConfigSetting::AutoToggleHotkeys(vec![]);
    assert_eq!(setting_key(&s), "auto_toggle_hotkeys");
    assert_eq!(setting_confirmation(&s), "Set auto_toggle_hotkeys = (none)");
}

#[test]
fn config_get_and_show() {
    let values = ConfigValues {
        transcription_mode: TranscriptionMode::PushToTalk,
        ptt_hotkeys: ctrl_alt(),
        auto_toggle_hotkeys: vec![],
        auto_paste_enabled: true,
        auto_paste_delay_ms: 50,
    };
    assert_eq!(config_value_text(&values, "transcription_mode"), "push_to_talk");
    assert_eq!(config_value_text(&values, "ptt_hotkeys"), "Left Alt + Left Ctrl");
    assert_eq!(config_value_text(&values, "auto_toggle_hotkeys"), "(none)");
    assert_eq!(
        config_show_lines(&values),
        vec![
            "transcription_mode: push_to_talk".to_string(),
            "ptt_hotkeys: Left Alt + Left Ctrl".to_string(),
            "auto_toggle_hotkeys: (none)".to_string(),
        ]
    );
}

#[test]
fn connect_or_spawn_sequence() {
    let mut c = ConnectOrSpawn::new();
    assert_eq!(c.step(true), ConnectAction::Done);
    assert_eq!(c.step(false), ConnectAction::SpawnAndRetry);
    let mut retries = 1;
    loop {
        match c.step(false) {
            ConnectAction::Retry => retries += 1,
            ConnectAction::TimedOut => break,
            other => panic!("unexpected {:?}", other),
        }
    }
    assert_eq!(retries, 50);
    assert_eq!(SPAWN_RETRIES, 50);
    assert_eq!(start_timeout_message(), "Application failed to start within timeout");
    let mut c = ConnectOrSpawn::new();
    assert_eq!(c.step(false), ConnectAction::SpawnAndRetry);
    assert_eq!(c.step(false), ConnectAction::Retry);
    assert_eq!(c.step(true), ConnectAction::Done);
}

#[test]
fn application_path_choice() {
    let cands = vec!["/Applications/FlowSTT.app/Contents/MacOS/flowstt-app".to_string(), "/opt/x/flowstt-app".to_string()];
    assert_eq!(pick_app_path(&cands, &vec![false, true], false), "/opt/x/flowstt-app");
    assert_eq!(pick_app_path(&cands, &vec![true, true], false), cands[0]);
    assert_eq!(pick_app_path(&cands, &vec![false, false], false), "flowstt-app");
    assert_eq!(pick_app_path(&vec![], &vec![], true), "flowstt-app.exe");
}

#[test]
fn config_values_online_and_offline() {
    let mut c = Config::default();
    c.ptt_hotkeys = ctrl_alt();
    c.auto_paste_delay_ms = 75;
    let v = stored_config_values(c);
    assert_eq!(v.ptt_hotkeys, ctrl_alt());
    assert_eq!(v.auto_paste_delay_ms, 75);
    assert_eq!(v.transcription_mode, TranscriptionMode::PushToTalk);
    let got = expect_config_values(Response::ConfigValues(v)).ok().unwrap();
    assert_eq!(got.auto_paste_delay_ms, 75);
    let e = expect_config_values(Response::Pong).err().unwrap();
    assert_eq!(e.message, "Unexpected response from service");
    assert_eq!(e.exit_code, 1);
    let e = expect_config_values(Response::error("gone".to_string())).err().unwrap();
    assert_eq!(e.message, "gone");
}
