use flowstt::config::{Config, LegacyConfig, ThemeMode};
use flowstt::service_config;
use flowstt::types::{HotkeyCombination, KeyCode, TranscriptionMode};

fn legacy(mode: TranscriptionMode) -> LegacyConfig {
    LegacyConfig {
        transcription_mode: mode,
        ptt_key: None,
        ptt_hotkeys: None,
        auto_toggle_hotkeys: None,
        auto_paste_enabled: None,
        auto_paste_delay_ms: None,
        theme_mode: None,
    }
}

#[test]
fn config_test_default_config() {
    let config = Config::default_with_hotkeys();
    assert_eq!(config.transcription_mode, TranscriptionMode::PushToTalk);
    assert_eq!(config.ptt_hotkeys.len(), 1);
    assert_eq!(config.ptt_hotkeys[0].keys, vec![KeyCode::RightAlt]);
    assert!(config.auto_paste_enabled);
    assert_eq!(config.auto_paste_delay_ms, 50);
    assert_eq!(config.theme_mode, ThemeMode::Auto);
}

#[test]
fn test_config_serialization_roundtrip() {
    let mut config = Config::default();
    config.transcription_mode = TranscriptionMode::Automatic;
    config.ptt_hotkeys = vec![
        HotkeyCombination::single(KeyCode::F13),
        HotkeyCombination::new(vec![KeyCode::LeftControl, KeyCode::LeftAlt]),
    ];
    let parsed = Config::from_stored(Some(config.to_stored()));
    assert_eq!(parsed.transcription_mode, TranscriptionMode::Automatic);
    assert_eq!(parsed.ptt_hotkeys.len(), 2);
    assert_eq!(parsed.ptt_hotkeys[0].keys, vec![KeyCode::F13]);
}

#[test]
fn test_legacy_ptt_key_migration() {
    let mut l = legacy(TranscriptionMode::PushToTalk);
    l.ptt_key = Some(KeyCode::F13);
    let config = Config::from_legacy(l);
    assert_eq!(config.transcription_mode, TranscriptionMode::PushToTalk);
    assert_eq!(config.ptt_hotkeys.len(), 1);
    assert_eq!(config.ptt_hotkeys[0].keys, vec![KeyCode::F13]);
}

#[test]
fn test_legacy_missing_both_fields() {
    let config = Config::from_legacy(legacy(TranscriptionMode::Automatic));
    assert_eq!(config.transcription_mode, TranscriptionMode::Automatic);
    assert_eq!(config.ptt_hotkeys.len(), 1);
    assert_eq!(config.ptt_hotkeys[0].keys, vec![KeyCode::RightAlt]);
}

#[test]
fn test_new_format_loaded_directly() {
    let mut l = legacy(TranscriptionMode::PushToTalk);
    l.ptt_hotkeys = Some(vec![HotkeyCombination::new(vec![
        KeyCode::LeftControl,
        KeyCode::LeftAlt,
    ])]);
    let config = Config::from_legacy(l);
    assert_eq!(config.ptt_hotkeys.len(), 1);
    assert!(config.ptt_hotkeys[0].keys.contains(&KeyCode::LeftControl));
    assert!(config.ptt_hotkeys[0].keys.contains(&KeyCode::LeftAlt));
}

#[test]
fn legacy_empty_hotkey_list_gets_default_binding() {
    let mut l = legacy(TranscriptionMode::PushToTalk);
    l.ptt_hotkeys = Some(vec![]);
    l.ptt_key = Some(KeyCode::F5);
    let config = Config::from_legacy(l);
    assert_eq!(config.ptt_hotkeys.len(), 1);
    assert_eq!(config.ptt_hotkeys[0].keys, vec![KeyCode::RightAlt]);
}

#[test]
fn legacy_optional_fields_are_kept_or_defaulted() {
    let mut l = legacy(TranscriptionMode::Automatic);
    l.auto_paste_enabled = Some(false);
    l.auto_paste_delay_ms = Some(120);
    l.theme_mode = Some(ThemeMode::Dark);
    let c = Config::from_legacy(l);
    assert!(!c.auto_paste_enabled);
    assert_eq!(c.auto_paste_delay_ms, 120);
    assert_eq!(c.theme_mode, ThemeMode::Dark);
    let d = Config::from_legacy(legacy(TranscriptionMode::Automatic));
    assert!(d.auto_paste_enabled);
    assert_eq!(d.auto_paste_delay_ms, 50);
    assert_eq!(d.theme_mode, ThemeMode::Auto);
    assert!(d.auto_toggle_hotkeys.is_empty());
}

#[test]
fn missing_config_file_gives_default_with_hotkeys() {
    let c = Config::from_stored(None);
    assert_eq!(c.ptt_hotkeys.len(), 1);
    assert_eq!(c.ptt_hotkeys[0].keys, vec![KeyCode::RightAlt]);
    assert!(c.auto_paste_enabled);
}

#[test]
fn plain_default_config_has_no_hotkeys() {
    let c = Config::default();
    assert!(c.ptt_hotkeys.is_empty());
    assert!(!c.auto_paste_enabled);
    assert_eq!(c.auto_paste_delay_ms, 0);
}

#[test]
fn stored_config_reads_back_unchanged() {
    let mut c = Config::default_with_hotkeys();
    c.theme_mode = ThemeMode::Light;
    c.auto_paste_delay_ms = 7;
    c.auto_toggle_hotkeys = vec![HotkeyCombination::single(KeyCode::F13)];
    let back = Config::from_legacy(c.to_stored());
    assert_eq!(back.theme_mode, ThemeMode::Light);
    assert_eq!(back.auto_paste_delay_ms, 7);
    assert_eq!(back.auto_toggle_hotkeys.len(), 1);
    assert_eq!(back.auto_toggle_hotkeys[0].keys, vec![KeyCode::F13]);
    assert_eq!(back.ptt_hotkeys[0].keys, vec![KeyCode::RightAlt]);
}

#[test]
fn service_config_test_default_config() {
    let config = service_config::Config::default();
    assert_eq!(config.transcription_mode, TranscriptionMode::PushToTalk);
    assert_eq!(config.ptt_key, KeyCode::RightAlt);
}

#[test]
fn test_config_serialization() {
    let config = service_config::Config {
        transcription_mode: TranscriptionMode::Automatic,
        ptt_key: KeyCode::F13,
    };
    let parsed = service_config::Config::from_stored(Some(config));
    assert_eq!(parsed.transcription_mode, TranscriptionMode::Automatic);
    assert_eq!(parsed.ptt_key, KeyCode::F13);
    let fallback = service_config::Config::from_stored(None);
    assert_eq!(fallback.ptt_key, KeyCode::RightAlt);
}
