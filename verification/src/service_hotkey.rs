//! Push-to-talk hotkeys of the standalone service: the backend singleton,
//! the Accessibility permission that the GUI can confirm on the service's
//! behalf, and the single-key tracking of the Raw Input backend.

use vstd::prelude::*;
use crate::hotkey;
use crate::hotkey::{HotkeyBackendState, HotkeyEvent, Platform, hotkeys_supported};
use crate::keymap::{raw_input_key, RI_KEY_BREAK, RI_KEY_E0};
use crate::types::KeyCode;

verus! {

/// The service's hotkey state: the backend singleton, and whether the GUI
/// confirmed that Accessibility permission is granted.
pub struct ServiceHotkeys {
    pub backend: Option<HotkeyBackendState>,
    pub accessibility_permission_granted: bool,
}

impl ServiceHotkeys {
    /// No backend yet, no permission confirmed.
    pub fn new() -> (r: Self)
        ensures
            r.backend is None,
            !r.accessibility_permission_granted,
    {
        ServiceHotkeys { backend: None, accessibility_permission_granted: false }
    }
}

/// Install the platform's hotkey backend.
pub fn init_hotkey_backend(hk: &mut ServiceHotkeys, platform: Platform) -> (r: Result<(), String>)
    ensures
        !hotkeys_supported(platform) ==> (r matches Err(e) && e@
            == "Unsupported platform for hotkey capture"@ && final(hk).backend == old(hk).backend),
        hotkeys_supported(platform) && old(hk).backend is Some ==> (r matches Err(e) && e@
            == "Hotkey backend already initialized"@ && final(hk).backend == old(hk).backend),
        hotkeys_supported(platform) && old(hk).backend is None ==> (r is Ok && final(hk).backend is Some && !final(hk).backend->0.spec_running()),
        final(hk).accessibility_permission_granted == old(hk).accessibility_permission_granted,
{
    hotkey::init_hotkey_backend(&mut hk.backend, platform)
}

/// Stop hotkey monitoring; returns whether a running backend was stopped.
pub fn stop_hotkey(hk: &mut ServiceHotkeys, platform: Platform) -> (r: bool)
    ensures
        old(hk).backend is Some ==> (final(hk).backend is Some && !final(hk).backend->0.spec_running() && r == old(hk).backend->0.spec_running()),
        old(hk).backend is None ==> !r,
        final(hk).accessibility_permission_granted == old(hk).accessibility_permission_granted,
{
    hotkey::stop_hotkey(&mut hk.backend, platform)
}

/// Try to receive a hotkey event (non-blocking).
pub fn try_recv_hotkey(hk: &mut ServiceHotkeys, platform: Platform) -> (r: Option<HotkeyEvent>)
    ensures
        old(hk).backend is None ==> r is None,
        old(hk).backend is Some ==> final(hk).backend is Some && match old(hk).backend->0.spec_pending() {
            Some(q) => if q.len() > 0 {
                r == Some(q[0]) && final(hk).backend->0.spec_pending() == Some(q.drop_first())
            } else {
                r is None
            },
            None => r is None,
        },
        final(hk).accessibility_permission_granted == old(hk).accessibility_permission_granted,
{
    hotkey::try_recv_hotkey(&mut hk.backend, platform)
}

/// Whether hotkey capture is available on this platform.
pub fn is_hotkey_available(hk: &mut ServiceHotkeys, platform: Platform) -> (r: bool)
    ensures
        r == (old(hk).backend is Some || hotkeys_supported(platform)),
        final(hk).accessibility_permission_granted == old(hk).accessibility_permission_granted,
{
    hotkey::is_hotkey_available(&mut hk.backend, platform)
}

/// Why hotkey capture is unavailable, if a reason was recorded.
pub fn hotkey_unavailable_reason(hk: &mut ServiceHotkeys, platform: Platform) -> (r: Option<String>)
    ensures
        old(hk).backend is None ==> r is None,
        old(hk).backend is Some ==> match r {
            Some(s) => old(hk).backend->0.spec_unavailable_reason() == Some(s@),
            None => old(hk).backend->0.spec_unavailable_reason() is None,
        },
        final(hk).accessibility_permission_granted == old(hk).accessibility_permission_granted,
{
    hotkey::hotkey_unavailable_reason(&mut hk.backend, platform)
}

/// Record that the GUI process confirmed (or withdrew) Accessibility
/// permission for the service.
pub fn set_accessibility_permission_granted(hk: &mut ServiceHotkeys, granted: bool)
    ensures
        final(hk).accessibility_permission_granted == granted,
        final(hk).backend == old(hk).backend,
{
    hk.accessibility_permission_granted = granted;
}

/// Whether Accessibility permission is available: on macOS, when the GUI
/// confirmed it or this process is trusted; always elsewhere.
pub fn check_accessibility_permission(hk: &ServiceHotkeys, platform: Platform, process_trusted: bool) -> (r:
    bool)
    ensures
        r == (platform != Platform::MacOS || hk.accessibility_permission_granted
            || process_trusted),
{
    if platform == Platform::MacOS {
        hk.accessibility_permission_granted || process_trusted
    } else {
        true
    }
}

/// Set whether auto mode is active (push-to-talk events are then suppressed).
pub fn set_auto_mode_active(hk: &mut ServiceHotkeys, platform: Platform, active: bool)
    ensures
        old(hk).backend is Some ==> (final(hk).backend is Some && final(hk).backend->0.spec_auto_mode_active() == active),
        final(hk).accessibility_permission_granted == old(hk).accessibility_permission_granted,
{
    hotkey::set_auto_mode_active(&mut hk.backend, platform, active)
}

/// Raw Input virtual key code and whether the extended-key (E0) flag marks
/// it, for the keys the single-key backend can watch: right-hand modifiers
/// use the generic code with the E0 flag.
pub open spec fn raw_input_target(key: KeyCode) -> Option<(u16, bool)> {
    match key {
        KeyCode::RightAlt => Some((0x12u16, true)),
        KeyCode::LeftAlt => Some((0x12u16, false)),
        KeyCode::RightControl => Some((0x11u16, true)),
        KeyCode::LeftControl => Some((0x11u16, false)),
        KeyCode::RightShift => Some((0x10u16, true)),
        KeyCode::LeftShift => Some((0x10u16, false)),
        KeyCode::CapsLock => Some((0x14u16, false)),
        KeyCode::F13 => Some((0x7Cu16, false)),
        KeyCode::F14 => Some((0x7Du16, false)),
        KeyCode::F15 => Some((0x7Eu16, false)),
        KeyCode::F16 => Some((0x7Fu16, false)),
        KeyCode::F17 => Some((0x80u16, false)),
        KeyCode::F18 => Some((0x81u16, false)),
        KeyCode::F19 => Some((0x82u16, false)),
        KeyCode::F20 => Some((0x83u16, false)),
        _ => None,
    }
}

/// Decoding the Raw Input code the single-key backend watches for a key
/// gives that key back, whatever the make code (the shift keys aside, which
/// Raw Input tells apart by make code alone): right and left Alt and
/// Control, which share a virtual key, come back as themselves.
pub proof fn lemma_raw_input_roundtrip(key: KeyCode, make_code: u16)
    requires
        raw_input_target(key) is Some,
        key != KeyCode::RightShift,
        key != KeyCode::LeftShift,
    ensures
        raw_input_target(key) matches Some((vk, e0)) && raw_input_key(vk, e0, make_code) == Some(key),
{
}

/// The shift keys share a virtual key and are told apart by the make code
/// of the right one, `0x36`, with or without the E0 flag.
pub proof fn lemma_raw_input_shift_keys(is_e0: bool, make_code: u16)
    ensures
        raw_input_target(KeyCode::RightShift) matches Some((vk, _)) && raw_input_key(vk, is_e0, 0x36)
            == Some(KeyCode::RightShift),
        make_code != 0x36 ==> (raw_input_target(KeyCode::LeftShift) matches Some((vk, _))
            && raw_input_key(vk, is_e0, make_code) == Some(KeyCode::LeftShift)),
{
}

/// The Raw Input code of a key the single-key backend can watch.
pub fn keycode_to_raw_input(key: KeyCode) -> (r: Option<(u16, bool)>)
    ensures
        r == raw_input_target(key),
{
    match key {
        KeyCode::RightAlt => Some((0x12u16, true)),
        KeyCode::LeftAlt => Some((0x12u16, false)),
        KeyCode::RightControl => Some((0x11u16, true)),
        KeyCode::LeftControl => Some((0x11u16, false)),
        KeyCode::RightShift => Some((0x10u16, true)),
        KeyCode::LeftShift => Some((0x10u16, false)),
        KeyCode::CapsLock => Some((0x14u16, false)),
        KeyCode::F13 => Some((0x7Cu16, false)),
        KeyCode::F14 => Some((0x7Du16, false)),
        KeyCode::F15 => Some((0x7Eu16, false)),
        KeyCode::F16 => Some((0x7Fu16, false)),
        KeyCode::F17 => Some((0x80u16, false)),
        KeyCode::F18 => Some((0x81u16, false)),
        KeyCode::F19 => Some((0x82u16, false)),
        KeyCode::F20 => Some((0x83u16, false)),
        _ => None,
    }
}

/// A change of the watched key.
#[derive(Debug, Clone, Copy, PartialEq, Eq, Structural)]
pub enum KeyEvent {
    Pressed,
    Released,
}

/// Tracks the single push-to-talk key from Raw Input keyboard messages.
pub struct SingleKeyTracker {
    pub target_vk: u16,
    pub target_requires_e0: bool,
    pub key_down: bool,
}

impl SingleKeyTracker {
    /// Watch `key`; `None` when the backend cannot watch it.
    pub fn new(key: KeyCode) -> (r: Option<Self>)
        ensures
            match raw_input_target(key) {
                Some((vk, e0)) => r matches Some(t) && t.target_vk == vk && t.target_requires_e0
                    == e0 && !t.key_down,
                None => r is None,
            },
    {
        match keycode_to_raw_input(key) {
            Some((vk, e0)) => Some(
                SingleKeyTracker { target_vk: vk, target_requires_e0: e0, key_down: false },
            ),
            None => None,
        }
    }

    /// Take one keyboard message (virtual key and flags). Only the watched
    /// key counts, with its extended flag; auto-repeat while held reports
    /// nothing.
    pub fn on_raw_key(&mut self, vk: u16, flags: u16) -> (r: Option<KeyEvent>)
        ensures
            (*final(self), r) == raw_key_step(*old(self), vk, flags),
            ({
                let is_up = flags & RI_KEY_BREAK != 0;
                let is_e0 = flags & RI_KEY_E0 != 0;
                let target = vk == old(self).target_vk && is_e0 == old(self).target_requires_e0;
                &&& final(self).target_vk == old(self).target_vk
                &&& final(self).target_requires_e0 == old(self).target_requires_e0
                &&& if target && is_up && old(self).key_down {
                    r == Some(KeyEvent::Released) && !final(self).key_down
                } else if target && !is_up && !old(self).key_down {
                    r == Some(KeyEvent::Pressed) && final(self).key_down
                } else {
                    r is None && final(self).key_down == old(self).key_down
                }
            }),
    {
        let is_up = flags & RI_KEY_BREAK != 0;
        let is_e0 = flags & RI_KEY_E0 != 0;
        if vk == self.target_vk && is_e0 == self.target_requires_e0 {
            if is_up && self.key_down {
                self.key_down = false;
                return Some(KeyEvent::Released);
            } else if !is_up && !self.key_down {
                self.key_down = true;
                return Some(KeyEvent::Pressed);
            }
        }
        None
    }
}

/// The tracker after one keyboard message, and what it reports.
pub open spec fn raw_key_step(t: SingleKeyTracker, vk: u16, flags: u16) -> (SingleKeyTracker, Option<
    KeyEvent,
>) {
    let is_up = flags & RI_KEY_BREAK != 0;
    let is_e0 = flags & RI_KEY_E0 != 0;
    let target = vk == t.target_vk && is_e0 == t.target_requires_e0;
    if target && is_up && t.key_down {
        (SingleKeyTracker { key_down: false, ..t }, Some(KeyEvent::Released))
    } else if target && !is_up && !t.key_down {
        (SingleKeyTracker { key_down: true, ..t }, Some(KeyEvent::Pressed))
    } else {
        (t, None)
    }
}

/// The reports of a tracker over a series of keyboard messages.
pub open spec fn reports_over(t: SingleKeyTracker, msgs: Seq<(u16, u16)>) -> Seq<KeyEvent>
    decreases msgs.len(),
{
    if msgs.len() == 0 {
        Seq::<KeyEvent>::empty()
    } else {
        let (t2, r) = raw_key_step(t, msgs[0].0, msgs[0].1);
        let rest = reports_over(t2, msgs.drop_first());
        match r {
            Some(e) => seq![e] + rest,
            None => rest,
        }
    }
}

/// Reports that alternate, starting with a release when the key is down
/// and with a press when it is up.
pub open spec fn alternating(events: Seq<KeyEvent>, down: bool) -> bool {
    forall|i: int|
        0 <= i < events.len() ==> #[trigger] events[i] == (if (i % 2 == 0) == down {
            KeyEvent::Released
        } else {
            KeyEvent::Pressed
        })
}

/// Whatever keyboard messages arrive, a tracker's reports alternate between
/// press and release, starting with a press when the key is up.
pub proof fn lemma_key_reports_alternate(t: SingleKeyTracker, msgs: Seq<(u16, u16)>)
    ensures
        alternating(reports_over(t, msgs), t.key_down),
    decreases msgs.len(),
{
    if msgs.len() > 0 {
        let (t2, r) = raw_key_step(t, msgs[0].0, msgs[0].1);
        lemma_key_reports_alternate(t2, msgs.drop_first());
        let rest = reports_over(t2, msgs.drop_first());
        match r {
            Some(e) => {
                assert(t2.key_down == !t.key_down);
                let all = seq![e] + rest;
                assert forall|i: int| 0 <= i < all.len() implies #[trigger] all[i] == (if (i % 2
                    == 0) == t.key_down {
                    KeyEvent::Released
                } else {
                    KeyEvent::Pressed
                }) by {
                    if i > 0 {
                        assert(all[i] == rest[i - 1]);
                        assert(((i - 1) % 2 == 0) == !(i % 2 == 0));
                    }
                }
            },
            None => {},
        }
    }
}

} // verus!
