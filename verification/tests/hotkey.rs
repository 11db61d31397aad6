use flowstt::hotkey::{
    check_accessibility_permission, hotkey_unavailable_reason, init_hotkey_backend,
    is_hotkey_available, request_accessibility_permission, set_auto_mode_active, stop_hotkey,
    try_recv_hotkey, AutoModeState, HotkeyBackendState, HotkeyEvent, HotkeyMatcher, Platform,
};
use flowstt::keymap::{keycode_to_macos, macos_to_keycode, raw_input_flags, raw_input_to_keycode};
use flowstt::service_hotkey::{self, KeyEvent, ServiceHotkeys, SingleKeyTracker};
use flowstt::types::{HotkeyCombination, KeyCode};

#[test]
fn auto_mode_state_flag() {
    let mut s = AutoModeState::new();
    assert!(!s.is_active());
    s.set_active(true);
    assert!(s.is_active());
    assert!(!AutoModeState::shared().is_active());
}

#[test]
fn matcher_reports_toggle_then_ptt_and_suppresses_ptt() {
    let ptt = vec![HotkeyCombination::new(vec![KeyCode::LeftControl, KeyCode::LeftAlt])];
    let toggle = vec![HotkeyCombination::single(KeyCode::LeftAlt)];
    let mut m = HotkeyMatcher::new(ptt, toggle);
    assert_eq!(m.on_key(KeyCode::LeftControl, false, false), vec![]);
    assert_eq!(
        m.on_key(KeyCode::LeftAlt, false, false),
        vec![HotkeyEvent::TogglePressed, HotkeyEvent::PttPressed]
    );
    assert_eq!(m.on_key(KeyCode::LeftAlt, false, false), vec![]);
    assert_eq!(m.on_key(KeyCode::LeftControl, true, false), vec![HotkeyEvent::PttReleased]);
    assert_eq!(m.on_key(KeyCode::LeftControl, false, true), vec![]);
    assert!(m.any_ptt_matched);
}

#[test]
fn backend_start_rules() {
    let mut b = HotkeyBackendState::new();
    assert_eq!(b.start(0, 0, false, false), Err("No hotkey combinations configured".to_string()));
    let e = b.start(1, 0, true, false).unwrap_err();
    assert!(e.starts_with("Push-to-Talk requires Accessibility permission"));
    assert_eq!(b.unavailable_reason(), Some(e));
    assert!(b.start(1, 0, true, true).is_ok());
    assert!(b.unavailable_reason().is_none());
    assert_eq!(b.start(1, 0, false, false), Err("Hotkey backend already running".to_string()));
    b.deliver(HotkeyEvent::PttPressed);
    assert_eq!(b.try_recv(), Some(HotkeyEvent::PttPressed));
    assert_eq!(b.try_recv(), None);
    assert!(b.stop());
    assert!(!b.is_running());
}

#[test]
fn singleton_slot() {
    let mut slot: Option<HotkeyBackendState> = None;
    assert_eq!(
        init_hotkey_backend(&mut slot, Platform::Other),
        Err("Unsupported platform for hotkey capture".to_string())
    );
    assert!(!is_hotkey_available(&mut slot, Platform::Other));
    assert!(init_hotkey_backend(&mut slot, Platform::Windows).is_ok());
    assert_eq!(
        init_hotkey_backend(&mut slot, Platform::Windows),
        Err("Hotkey backend already initialized".to_string())
    );
    assert!(is_hotkey_available(&mut slot, Platform::Windows));
    assert!(hotkey_unavailable_reason(&mut slot, Platform::Windows).is_none());
    assert!(try_recv_hotkey(&mut slot, Platform::Windows).is_none());
    assert!(!stop_hotkey(&mut slot, Platform::Windows));
    set_auto_mode_active(&mut slot, Platform::Windows, true);
    assert!(check_accessibility_permission(Platform::Linux, false));
    assert!(!check_accessibility_permission(Platform::MacOS, false));
    assert!(request_accessibility_permission(Platform::Windows, false));
    assert!(request_accessibility_permission(Platform::MacOS, true));
}

#[test]
fn raw_input_mapping() {
    assert_eq!(raw_input_to_keycode(0x12, true, 0), Some(KeyCode::RightAlt));
    assert_eq!(raw_input_to_keycode(0x12, false, 0), Some(KeyCode::LeftAlt));
    assert_eq!(raw_input_to_keycode(0x10, false, 0x36), Some(KeyCode::RightShift));
    assert_eq!(raw_input_to_keycode(0x10, false, 0x2A), Some(KeyCode::LeftShift));
    assert_eq!(raw_input_to_keycode(0x7C, false, 0), Some(KeyCode::F13));
    assert_eq!(raw_input_flags(3), (true, true));
    assert_eq!(raw_input_flags(0), (false, false));
}

#[test]
fn macos_mapping_round_trips() {
    assert_eq!(keycode_to_macos(KeyCode::RightAlt), 0x3D);
    assert_eq!(macos_to_keycode(0x3D), Some(KeyCode::RightAlt));
    for k in [KeyCode::F13, KeyCode::KeyA, KeyCode::LeftControl, KeyCode::Space] {
        assert_eq!(macos_to_keycode(keycode_to_macos(k)), Some(k));
    }
}

#[test]
fn service_hotkeys_and_permission() {
    let mut hk = ServiceHotkeys::new();
    assert!(!service_hotkey::check_accessibility_permission(&hk, Platform::MacOS, false));
    service_hotkey::set_accessibility_permission_granted(&mut hk, true);
    assert!(service_hotkey::check_accessibility_permission(&hk, Platform::MacOS, false));
    assert!(service_hotkey::check_accessibility_permission(&hk, Platform::Linux, false));
    assert!(service_hotkey::init_hotkey_backend(&mut hk, Platform::Linux).is_ok());
    assert!(service_hotkey::is_hotkey_available(&mut hk, Platform::Linux));
    assert!(!service_hotkey::stop_hotkey(&mut hk, Platform::Linux));
    assert!(service_hotkey::try_recv_hotkey(&mut hk, Platform::Linux).is_none());
    assert!(service_hotkey::hotkey_unavailable_reason(&mut hk, Platform::Linux).is_none());
    service_hotkey::set_auto_mode_active(&mut hk, Platform::Linux, true);
}

#[test]
fn single_key_tracker_alternates() {
    assert_eq!(service_hotkey::keycode_to_raw_input(KeyCode::RightAlt), Some((0x12, true)));
    assert_eq!(service_hotkey::keycode_to_raw_input(KeyCode::KeyA), None);
    let mut t = SingleKeyTracker::new(KeyCode::RightControl).unwrap();
    assert_eq!(t.on_raw_key(0x11, 0), None);
    assert_eq!(t.on_raw_key(0x11, 2), Some(KeyEvent::Pressed));
    assert_eq!(t.on_raw_key(0x11, 2), None);
    assert_eq!(t.on_raw_key(0x11, 3), Some(KeyEvent::Released));
    assert_eq!(t.on_raw_key(0x11, 3), None);
    assert!(SingleKeyTracker::new(KeyCode::KeyZ).is_none());
}

#[test]
fn backend_key_handling_follows_auto_mode() {
    let ptt = vec![HotkeyCombination::single(KeyCode::RightAlt)];
    let toggle = vec![HotkeyCombination::single(KeyCode::F13)];
    let mut m = HotkeyMatcher::new(ptt, toggle);
    let mut b = HotkeyBackendState::new();
    assert!(b.start(1, 1, false, false).is_ok());
    assert_eq!(b.handle_key(&mut m, KeyCode::RightAlt, false), vec![HotkeyEvent::PttPressed]);
    assert_eq!(b.try_recv(), Some(HotkeyEvent::PttPressed));
    b.set_auto_mode_active(true);
    assert_eq!(b.handle_key(&mut m, KeyCode::RightAlt, true), vec![]);
    assert_eq!(b.handle_key(&mut m, KeyCode::F13, false), vec![HotkeyEvent::TogglePressed]);
    assert_eq!(b.handle_key(&mut m, KeyCode::RightAlt, false), vec![]);
    assert!(m.any_ptt_matched);
    assert_eq!(b.try_recv(), Some(HotkeyEvent::TogglePressed));
    assert_eq!(b.try_recv(), None);
    assert!(b.stop());
    assert_eq!(b.try_recv(), None);
    assert!(!b.stop());
}
