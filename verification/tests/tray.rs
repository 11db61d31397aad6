use flowstt::tray::{
    clicked_item, fallback_icon_rgba, item_id, item_label, tray_menu, MenuEntry, TrayItem,
};

#[test]
fn tray_menu_items() {
    let base = vec![
        MenuEntry::Item(TrayItem::Show),
        MenuEntry::Item(TrayItem::Settings),
        MenuEntry::Item(TrayItem::About),
        MenuEntry::Separator,
        MenuEntry::Item(TrayItem::Exit),
    ];
    assert_eq!(tray_menu(false, true), base);
    assert_eq!(tray_menu(true, false), base);
    let mut with_test = base.clone();
    with_test.insert(3, MenuEntry::Item(TrayItem::RunTest));
    assert_eq!(tray_menu(true, true), with_test);
}

#[test]
fn tray_item_ids_and_labels() {
    assert_eq!(item_id(TrayItem::Show), "show");
    assert_eq!(item_id(TrayItem::AlwaysOnTop), "always_on_top");
    assert_eq!(item_id(TrayItem::RunTest), "run_test");
    assert_eq!(item_label(TrayItem::RunTest), "Run Test (WAV Directory)...");
    assert_eq!(item_label(TrayItem::AlwaysOnTop), "Always on Top");
    assert_eq!(item_label(TrayItem::Exit), "Exit");
}

#[test]
fn tray_clicks() {
    assert_eq!(clicked_item("show", false), Some(TrayItem::Show));
    assert_eq!(clicked_item("settings", true), Some(TrayItem::Settings));
    assert_eq!(clicked_item("about", true), Some(TrayItem::About));
    assert_eq!(clicked_item("exit", false), Some(TrayItem::Exit));
    assert_eq!(clicked_item("run_test", true), Some(TrayItem::RunTest));
    assert_eq!(clicked_item("run_test", false), None);
    assert_eq!(clicked_item("logs", true), None);
    assert_eq!(clicked_item("always_on_top", true), None);
}

fn float_icon(size: u32) -> Vec<u8> {
    let mut rgba = vec![0u8; (size * size * 4) as usize];
    let center = size as f32 / 2.0 - 0.5;
    let radius = size as f32 / 2.0 - 2.0;
    for y in 0..size {
        for x in 0..size {
            let dx = x as f32 - center;
            let dy = y as f32 - center;
            let dist = (dx * dx + dy * dy).sqrt();
            let idx = ((y * size + x) * 4) as usize;
            if dist < radius {
                rgba[idx] = 0x3b;
                rgba[idx + 1] = 0x82;
                rgba[idx + 2] = 0xf6;
                rgba[idx + 3] = 0xff;
            }
        }
    }
    rgba
}

#[test]
fn fallback_icon_is_the_blue_disc() {
    assert_eq!(fallback_icon_rgba(true), float_icon(32));
    assert_eq!(fallback_icon_rgba(false), float_icon(22));
    let icon = fallback_icon_rgba(true);
    let centre = ((16 * 32 + 16) * 4) as usize;
    assert_eq!(&icon[centre..centre + 4], &[0x3b, 0x82, 0xf6, 0xff]);
    assert_eq!(&icon[0..4], &[0, 0, 0, 0]);
}

#[test]
fn every_shown_item_is_handled() {
    for (test_mode, windows) in [(false, false), (false, true), (true, false), (true, true)] {
        for entry in tray_menu(test_mode, windows) {
            if let MenuEntry::Item(item) = entry {
                assert_eq!(clicked_item(item_id(item), windows), Some(item));
            }
        }
    }
}
