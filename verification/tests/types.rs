use flowstt::types::{HotkeyCombination, KeyCode, KeySet, RuntimeMode};

#[test]
fn runtime_mode_names() {
    assert_eq!(RuntimeMode::Development.as_str(), "development");
    assert_eq!(RuntimeMode::Production.as_str(), "production");
}

#[test]
fn key_display_names_and_modifiers() {
    assert_eq!(KeyCode::RightAlt.display_name(), KeyCode::RightAlt.display_name());
    assert!(KeyCode::LeftControl.is_modifier());
    assert!(KeyCode::RightAlt.is_modifier());
    assert!(!KeyCode::F13.is_modifier());
    assert!(!KeyCode::KeyA.is_modifier());
    assert_eq!(KeyCode::F13.display_name(), "F13");
}

#[test]
fn combination_new_removes_duplicates_and_sorts() {
    let c = HotkeyCombination::new(vec![KeyCode::KeyA, KeyCode::LeftControl, KeyCode::KeyA]);
    assert_eq!(c.keys.len(), 2);
    assert!(c.keys.contains(&KeyCode::KeyA));
    assert!(c.keys.contains(&KeyCode::LeftControl));
    let d = HotkeyCombination::new(vec![KeyCode::LeftControl, KeyCode::KeyA]);
    assert_eq!(c.keys, d.keys);
}

#[test]
fn combination_equality_ignores_order() {
    let a = HotkeyCombination { keys: vec![KeyCode::LeftAlt, KeyCode::LeftControl] };
    let b = HotkeyCombination { keys: vec![KeyCode::LeftControl, KeyCode::LeftAlt] };
    assert!(a == b);
    let c = HotkeyCombination::single(KeyCode::LeftAlt);
    assert!(!(a == c));
}

#[test]
fn combination_display_lists_modifiers_first() {
    let c = HotkeyCombination::new(vec![KeyCode::KeyA, KeyCode::LeftControl]);
    let shown = c.display();
    assert!(shown.ends_with(KeyCode::KeyA.display_name()));
    assert!(shown.starts_with(KeyCode::LeftControl.display_name()));
    assert!(shown.contains(" + "));
    assert_eq!(HotkeyCombination::single(KeyCode::F13).display(), "F13");
}

#[test]
fn subset_of_held_keys() {
    let c = HotkeyCombination::new(vec![KeyCode::LeftControl, KeyCode::KeyA]);
    let mut held = KeySet::new();
    held.insert(KeyCode::LeftControl);
    assert!(!c.is_subset_of(&held));
    held.insert(KeyCode::KeyA);
    held.insert(KeyCode::F5);
    assert!(c.is_subset_of(&held));
    held.remove(&KeyCode::KeyA);
    assert!(!c.is_subset_of(&held));
}

#[test]
fn default_combination_is_right_alt() {
    let c = HotkeyCombination::default();
    assert_eq!(c.keys, vec![KeyCode::RightAlt]);
    assert_eq!(KeyCode::default(), KeyCode::RightAlt);
}

#[test]
fn combination_keys_are_canonical() {
    let a = HotkeyCombination::new(vec![KeyCode::LeftAlt, KeyCode::F13, KeyCode::LeftControl, KeyCode::LeftAlt]);
    let b = HotkeyCombination::new(vec![KeyCode::F13, KeyCode::LeftControl, KeyCode::LeftAlt]);
    assert_eq!(a.keys, b.keys);
    assert_eq!(a.keys, vec![KeyCode::F13, KeyCode::LeftAlt, KeyCode::LeftControl]);
}

#[test]
fn display_ignores_key_order() {
    let a = HotkeyCombination { keys: vec![KeyCode::F13, KeyCode::LeftControl, KeyCode::LeftAlt] };
    let b = HotkeyCombination { keys: vec![KeyCode::LeftAlt, KeyCode::F13, KeyCode::LeftControl] };
    assert_eq!(a.display(), b.display());
    assert_eq!(a.display(), "Left Alt + Left Ctrl + F13");
    assert_eq!(HotkeyCombination { keys: vec![] }.display(), "");
}

#[test]
fn punctuation_display_names() {
    assert_eq!(KeyCode::Backslash.display_name(), "\\");
    assert_eq!(KeyCode::Backslash.display_name().len(), 1);
}
