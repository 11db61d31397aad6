//! The system tray menu: which items it shows and what a click on one does.
//!
//! Building the menu and the windows belongs to the user-interface toolkit;
//! these functions decide what it is handed.

use vstd::prelude::*;
use vstd::string::*;
use crate::text::str_eq;

verus! {

/// The items a tray menu can hold.
#[derive(Debug, Clone, Copy, PartialEq, Eq, Structural)]
pub enum TrayItem {
    Show,
    AlwaysOnTop,
    Settings,
    Logs,
    About,
    RunTest,
    Exit,
}

/// The identifier of a menu item.
pub open spec fn item_id_spec(item: TrayItem) -> Seq<char> {
    match item {
        TrayItem::Show => "show"@,
        TrayItem::AlwaysOnTop => "always_on_top"@,
        TrayItem::Settings => "settings"@,
        TrayItem::Logs => "logs"@,
        TrayItem::About => "about"@,
        TrayItem::RunTest => "run_test"@,
        TrayItem::Exit => "exit"@,
    }
}

/// The identifier of a menu item.
pub fn item_id(item: TrayItem) -> (r: &'static str)
    ensures
        r@ == item_id_spec(item),
{
    match item {
        TrayItem::Show => "show",
        TrayItem::AlwaysOnTop => "always_on_top",
        TrayItem::Settings => "settings",
        TrayItem::Logs => "logs",
        TrayItem::About => "about",
        TrayItem::RunTest => "run_test",
        TrayItem::Exit => "exit",
    }
}

/// The label of a menu item.
pub open spec fn item_label_spec(item: TrayItem) -> Seq<char> {
    match item {
        TrayItem::Show => "Show"@,
        TrayItem::AlwaysOnTop => "Always on Top"@,
        TrayItem::Settings => "Settings"@,
        TrayItem::Logs => "Logs"@,
        TrayItem::About => "About"@,
        TrayItem::RunTest => "Run Test (WAV Directory)..."@,
        TrayItem::Exit => "Exit"@,
    }
}

/// The label of a menu item.
pub fn item_label(item: TrayItem) -> (r: &'static str)
    ensures
        r@ == item_label_spec(item),
{
    match item {
        TrayItem::Show => "Show",
        TrayItem::AlwaysOnTop => "Always on Top",
        TrayItem::Settings => "Settings",
        TrayItem::Logs => "Logs",
        TrayItem::About => "About",
        TrayItem::RunTest => "Run Test (WAV Directory)...",
        TrayItem::Exit => "Exit",
    }
}

/// An entry of the tray menu.
#[derive(Debug, Clone, Copy, PartialEq, Eq, Structural)]
pub enum MenuEntry {
    Item(TrayItem),
    Separator,
}

/// The tray menu: show, settings and about, the test run when test mode is
/// on (Windows only), a separator and exit.
pub open spec fn tray_menu_spec(test_mode: bool, windows: bool) -> Seq<MenuEntry> {
    if test_mode && windows {
        seq![
            MenuEntry::Item(TrayItem::Show),
            MenuEntry::Item(TrayItem::Settings),
            MenuEntry::Item(TrayItem::About),
            MenuEntry::Item(TrayItem::RunTest),
            MenuEntry::Separator,
            MenuEntry::Item(TrayItem::Exit),
        ]
    } else {
        seq![
            MenuEntry::Item(TrayItem::Show),
            MenuEntry::Item(TrayItem::Settings),
            MenuEntry::Item(TrayItem::About),
            MenuEntry::Separator,
            MenuEntry::Item(TrayItem::Exit),
        ]
    }
}

/// The tray menu.
pub fn tray_menu(test_mode: bool, windows: bool) -> (r: Vec<MenuEntry>)
    ensures
        r@ == tray_menu_spec(test_mode, windows),
{
    let mut r: Vec<MenuEntry> = Vec::new();
    r.push(MenuEntry::Item(TrayItem::Show));
    r.push(MenuEntry::Item(TrayItem::Settings));
    r.push(MenuEntry::Item(TrayItem::About));
    if test_mode && windows {
        r.push(MenuEntry::Item(TrayItem::RunTest));
    }
    r.push(MenuEntry::Separator);
    r.push(MenuEntry::Item(TrayItem::Exit));
    r
}

/// The item a click on the menu entry `id` acts on: show, settings, about
/// and exit everywhere, the test run on Windows; any other id does nothing.
pub open spec fn clicked_item_spec(id: Seq<char>, windows: bool) -> Option<TrayItem> {
    if id == "show"@ {
        Some(TrayItem::Show)
    } else if id == "settings"@ {
        Some(TrayItem::Settings)
    } else if id == "about"@ {
        Some(TrayItem::About)
    } else if windows && id == "run_test"@ {
        Some(TrayItem::RunTest)
    } else if id == "exit"@ {
        Some(TrayItem::Exit)
    } else {
        None
    }
}

/// The item a click on the menu entry `id` acts on.
pub fn clicked_item(id: &str, windows: bool) -> (r: Option<TrayItem>)
    ensures
        r == clicked_item_spec(id@, windows),
{
    if str_eq(id, "show") {
        Some(TrayItem::Show)
    } else if str_eq(id, "settings") {
        Some(TrayItem::Settings)
    } else if str_eq(id, "about") {
        Some(TrayItem::About)
    } else if windows && str_eq(id, "run_test") {
        Some(TrayItem::RunTest)
    } else if str_eq(id, "exit") {
        Some(TrayItem::Exit)
    } else {
        None
    }
}

/// Every item the tray menu shows is acted on when clicked: its id leads
/// back to it.
pub proof fn lemma_menu_items_are_handled(test_mode: bool, windows: bool, k: int)
    requires
        0 <= k < tray_menu_spec(test_mode, windows).len(),
        tray_menu_spec(test_mode, windows)[k] is Item,
    ensures
        clicked_item_spec(item_id_spec(tray_menu_spec(test_mode, windows)[k]->Item_0), windows)
            == Some(tray_menu_spec(test_mode, windows)[k]->Item_0),
{
    reveal_strlit("show");
    reveal_strlit("settings");
    reveal_strlit("about");
    reveal_strlit("run_test");
    reveal_strlit("exit");
    assert("settings"@.len() != "show"@.len());
    assert("about"@.len() != "show"@.len() && "about"@.len() != "settings"@.len());
    assert("run_test"@[0] != "settings"@[0]);
    assert("run_test"@.len() != "show"@.len() && "run_test"@.len() != "about"@.len());
    assert("exit"@[0] != "show"@[0]);
    assert("exit"@.len() != "settings"@.len() && "exit"@.len() != "about"@.len());
    assert("exit"@.len() != "run_test"@.len());
    if test_mode && windows {
        assert(k == 0 || k == 1 || k == 2 || k == 3 || k == 5);
    } else {
        assert(k == 0 || k == 1 || k == 2 || k == 4);
    }
}

/// The side of the tray icon drawn when none can be loaded: 32 pixels on
/// Windows, 22 on macOS.
pub open spec fn fallback_icon_side(windows: bool) -> int {
    if windows {
        32
    } else {
        22
    }
}

/// The pixel at column `x`, row `y` of a `side`-pixel icon lies inside the
/// circle centred on the icon with radius `side / 2 - 2`: its centre is
/// less than the radius from the icon's centre (in half-pixel units, so
/// that the distances stay whole numbers).
pub open spec fn in_fallback_circle(side: int, x: int, y: int) -> bool {
    (2 * x - (side - 1)) * (2 * x - (side - 1)) + (2 * y - (side - 1)) * (2 * y - (side - 1)) < (
    side - 4) * (side - 4)
}

/// The channels of the circle's colour, `#3b82f6`, fully opaque.
pub open spec fn circle_channel(c: int) -> u8 {
    if c == 0 {
        0x3b
    } else if c == 1 {
        0x82
    } else if c == 2 {
        0xf6
    } else {
        0xff
    }
}

/// Byte `i` of the icon's RGBA pixels, row by row: the circle's colour
/// inside the circle, transparent black outside.
pub open spec fn fallback_icon_byte(side: int, i: int) -> u8 {
    let p = i / 4;
    if in_fallback_circle(side, p % side, p / side) {
        circle_channel(i % 4)
    } else {
        0
    }
}

/// The RGBA pixels of the tray icon drawn when none can be loaded: a blue
/// disc on a transparent square.
pub fn fallback_icon_rgba(windows: bool) -> (r: Vec<u8>)
    ensures
        r@.len() == fallback_icon_side(windows) * fallback_icon_side(windows) * 4,
        forall|i: int| 0 <= i < r@.len() ==> #[trigger] r@[i] == fallback_icon_byte(
            fallback_icon_side(windows),
            i,
        ),
{
    let side: i32 = if windows {
        32
    } else {
        22
    };
    let ghost s = side as int;
    let mut rgba: Vec<u8> = Vec::new();
    let mut y: i32 = 0;
    while y < side
        invariant
            s == fallback_icon_side(windows),
            side as int == s,
            0 <= y <= side,
            rgba@.len() == y * s * 4,
            forall|i: int| 0 <= i < rgba@.len() ==> #[trigger] rgba@[i] == fallback_icon_byte(s, i),
        decreases side - y,
    {
        let mut x: i32 = 0;
        while x < side
            invariant
                s == fallback_icon_side(windows),
                side as int == s,
                0 <= y < side,
                0 <= x <= side,
                rgba@.len() == (y * s + x) * 4,
                forall|i: int| 0 <= i < rgba@.len() ==> #[trigger] rgba@[i] == fallback_icon_byte(s, i),
            decreases side - x,
        {
            let dx: i32 = 2 * x - (side - 1);
            let dy: i32 = 2 * y - (side - 1);
            let r: i32 = side - 4;
            assert(-64 <= dx <= 64 && -64 <= dy <= 64) by (nonlinear_arith)
                requires
                    dx == 2 * x - (side - 1),
                    dy == 2 * y - (side - 1),
                    0 <= x < side,
                    0 <= y < side,
                    side <= 32,
            ;
            assert(0 <= dx * dx <= 4096 && 0 <= dy * dy <= 4096) by (nonlinear_arith)
                requires
                    -64 <= dx <= 64,
                    -64 <= dy <= 64,
            ;
            let inside = dx * dx + dy * dy < r * r;
            let ghost base = rgba@.len();
            let ghost p = y * s + x;
            proof {
                assert forall|c: int| 0 <= c < 4 implies #[trigger] fallback_icon_byte(s, p * 4 + c)
                    == (if inside {
                    circle_channel(c)
                } else {
                    0u8
                }) by {
                    vstd::arithmetic::div_mod::lemma_fundamental_div_mod_converse(
                        p * 4 + c,
                        4,
                        p,
                        c,
                    );
                    vstd::arithmetic::div_mod::lemma_fundamental_div_mod_converse(p, s, y as int, x as int);
                }
            }
            if inside {
                rgba.push(0x3b);
                rgba.push(0x82);
                rgba.push(0xf6);
                rgba.push(0xff);
            } else {
                rgba.push(0);
                rgba.push(0);
                rgba.push(0);
                rgba.push(0);
            }
            proof {
                assert forall|i: int| 0 <= i < rgba@.len() implies #[trigger] rgba@[i]
                    == fallback_icon_byte(s, i) by {
                    if i >= base {
                        assert(fallback_icon_byte(s, p * 4 + (i - p * 4)) == fallback_icon_byte(s, i));
                    }
                }
                assert((y * s + (x + 1)) * 4 == base + 4) by (nonlinear_arith)
                    requires
                        base == (y * s + x) * 4,
                ;
            }
            x = x + 1;
        }
        assert((y + 1) * s * 4 == (y * s + s) * 4) by (nonlinear_arith);
        y = y + 1;
    }
    rgba
}

} // verus!
