//! Global hotkey handling: the events a backend delivers, the matching of held
//! keys against configured combinations, and the state of the backend singleton.

use vstd::prelude::*;
use std::collections::VecDeque;
use crate::types::{HotkeyCombination, KeyCode, KeySet};

verus! {

/// Event emitted when hotkey state changes.
#[derive(Debug, Clone, Copy, PartialEq, Eq, Structural)]
pub enum HotkeyEvent {
    /// PTT hotkey was pressed
    PttPressed,
    /// PTT hotkey was released
    PttReleased,
    /// Toggle hotkey was pressed
    TogglePressed,
}

/// The platforms the application distinguishes.
#[derive(Debug, Clone, Copy, PartialEq, Eq, Structural)]
pub enum Platform {
    Linux,
    MacOS,
    Windows,
    Other,
}

/// Shared state for PTT suppression: whether auto mode is active.
pub struct AutoModeState {
    /// Whether auto mode is currently active
    pub is_active: bool,
}

impl AutoModeState {
    pub fn new() -> (r: Self)
        ensures
            !r.is_active,
    {
        AutoModeState { is_active: false }
    }

    /// A fresh state behind a shared pointer.
    pub fn shared() -> (r: std::sync::Arc<Self>)
        ensures
            !r.is_active,
    {
        std::sync::Arc::new(Self::new())
    }

    pub fn is_active(&self) -> (r: bool)
        ensures
            r == self.is_active,
    {
        self.is_active
    }

    pub fn set_active(&mut self, active: bool)
        ensures
            final(self).is_active == active,
    {
        self.is_active = active;
    }
}

impl Default for AutoModeState {
    fn default() -> (r: Self)
        ensures
            !r.is_active,
    {
        Self::new()
    }
}

/// Every key of `combo` is in `pressed`.
pub open spec fn combo_held(combo: HotkeyCombination, pressed: Set<KeyCode>) -> bool {
    forall|j: int| 0 <= j < combo.keys@.len() ==> pressed.contains(#[trigger] combo.keys@[j])
}

/// Some combination of `combos` is fully held.
pub open spec fn any_combo_held(combos: Seq<HotkeyCombination>, pressed: Set<KeyCode>) -> bool {
    exists|i: int| 0 <= i < combos.len() && combo_held(#[trigger] combos[i], pressed)
}

/// Whether any combination of `combos` is fully held in `pressed`.
pub fn any_combination_held(combos: &Vec<HotkeyCombination>, pressed: &KeySet) -> (r: bool)
    ensures
        r == any_combo_held(combos@, pressed@),
{
    let mut i: usize = 0;
    while i < combos.len()
        invariant
            0 <= i <= combos@.len(),
            forall|t: int| 0 <= t < i ==> !combo_held(#[trigger] combos@[t], pressed@),
        decreases combos@.len() - i,
    {
        if combos[i].is_subset_of(pressed) {
            assert(combo_held(combos@[i as int], pressed@));
            return true;
        }
        i = i + 1;
    }
    false
}

/// The events one key transition produces, given whether toggle and PTT
/// combinations were matched before and are matched now: a toggle press when a
/// toggle combination becomes held, then a PTT press or release when the PTT
/// match changes, unless PTT events are suppressed.
pub open spec fn transition_events(
    toggle_before: bool,
    toggle_now: bool,
    ptt_before: bool,
    ptt_now: bool,
    suppress_ptt: bool,
) -> Seq<HotkeyEvent> {
    let t = if toggle_now && !toggle_before {
        seq![HotkeyEvent::TogglePressed]
    } else {
        Seq::<HotkeyEvent>::empty()
    };
    let p = if suppress_ptt {
        Seq::<HotkeyEvent>::empty()
    } else if ptt_now && !ptt_before {
        seq![HotkeyEvent::PttPressed]
    } else if !ptt_now && ptt_before {
        seq![HotkeyEvent::PttReleased]
    } else {
        Seq::<HotkeyEvent>::empty()
    };
    t + p
}

/// Tracks held keys and reports when configured combinations become held or
/// released.
pub struct HotkeyMatcher {
    /// All configured PTT hotkey combinations
    pub ptt_hotkeys: Vec<HotkeyCombination>,
    /// Toggle hotkey combinations
    pub toggle_hotkeys: Vec<HotkeyCombination>,
    /// Currently pressed keys
    pub pressed_keys: KeySet,
    /// Whether any PTT combination is currently matched
    pub any_ptt_matched: bool,
    /// Whether any toggle combination is currently matched
    pub any_toggle_matched: bool,
}

impl HotkeyMatcher {
    pub open spec fn wf(&self) -> bool {
        self.pressed_keys.wf()
    }

    /// A matcher with no key held.
    pub fn new(ptt_hotkeys: Vec<HotkeyCombination>, toggle_hotkeys: Vec<HotkeyCombination>) -> (r: Self)
        ensures
            r.wf(),
            r.ptt_hotkeys == ptt_hotkeys,
            r.toggle_hotkeys == toggle_hotkeys,
            r.pressed_keys@ == Set::<KeyCode>::empty(),
            !r.any_ptt_matched,
            !r.any_toggle_matched,
    {
        HotkeyMatcher {
            ptt_hotkeys,
            toggle_hotkeys,
            pressed_keys: KeySet::new(),
            any_ptt_matched: false,
            any_toggle_matched: false,
        }
    }

    /// Record a key going down or up and return the events it causes, in the
    /// order they are sent: toggle first, then PTT. PTT presses and releases
    /// are tracked but not reported while `suppress_ptt` holds.
    pub fn on_key(&mut self, key: KeyCode, is_key_up: bool, suppress_ptt: bool) -> (events: Vec<HotkeyEvent>)
        requires
            old(self).wf(),
        ensures
            final(self).wf(),
            final(self).ptt_hotkeys == old(self).ptt_hotkeys,
            final(self).toggle_hotkeys == old(self).toggle_hotkeys,
            final(self).pressed_keys@ == (if is_key_up {
                old(self).pressed_keys@.remove(key)
            } else {
                old(self).pressed_keys@.insert(key)
            }),
            final(self).any_toggle_matched == any_combo_held(
                old(self).toggle_hotkeys@,
                final(self).pressed_keys@,
            ),
            final(self).any_ptt_matched == any_combo_held(
                old(self).ptt_hotkeys@,
                final(self).pressed_keys@,
            ),
            events@ == transition_events(
                old(self).any_toggle_matched,
                final(self).any_toggle_matched,
                old(self).any_ptt_matched,
                final(self).any_ptt_matched,
                suppress_ptt,
            ),
    {
        if is_key_up {
            self.pressed_keys.remove(&key);
        } else {
            self.pressed_keys.insert(key);
        }
        let mut events: Vec<HotkeyEvent> = Vec::new();
        let toggle_before = self.any_toggle_matched;
        let ptt_before = self.any_ptt_matched;
        let now_toggle = any_combination_held(&self.toggle_hotkeys, &self.pressed_keys);
        if now_toggle && !self.any_toggle_matched {
            self.any_toggle_matched = true;
            events.push(HotkeyEvent::TogglePressed);
        } else if !now_toggle && self.any_toggle_matched {
            self.any_toggle_matched = false;
        }
        let ghost after_toggle = events@;
        let now_ptt = any_combination_held(&self.ptt_hotkeys, &self.pressed_keys);
        if now_ptt && !self.any_ptt_matched {
            self.any_ptt_matched = true;
            if !suppress_ptt {
                events.push(HotkeyEvent::PttPressed);
            }
        } else if !now_ptt && self.any_ptt_matched {
            self.any_ptt_matched = false;
            if !suppress_ptt {
                events.push(HotkeyEvent::PttReleased);
            }
        }
        assert(events@ =~= transition_events(
            toggle_before,
            self.any_toggle_matched,
            ptt_before,
            self.any_ptt_matched,
            suppress_ptt,
        ));
        events
    }
}

/// With PTT reporting on, a PTT press is reported exactly when the PTT
/// match goes from unmatched to matched, and a release exactly when it goes
/// back; so reported presses and releases alternate, starting with a press.
pub proof fn lemma_ptt_events_follow_match(
    toggle_before: bool,
    toggle_now: bool,
    ptt_before: bool,
    ptt_now: bool,
)
    ensures
        transition_events(toggle_before, toggle_now, ptt_before, ptt_now, false).contains(
            HotkeyEvent::PttPressed,
        ) <==> (!ptt_before && ptt_now),
        transition_events(toggle_before, toggle_now, ptt_before, ptt_now, false).contains(
            HotkeyEvent::PttReleased,
        ) <==> (ptt_before && !ptt_now),
        transition_events(toggle_before, toggle_now, ptt_before, ptt_now, true).contains(
            HotkeyEvent::TogglePressed,
        ) <==> (!toggle_before && toggle_now),
        !transition_events(toggle_before, toggle_now, ptt_before, ptt_now, true).contains(
            HotkeyEvent::PttPressed,
        ),
        !transition_events(toggle_before, toggle_now, ptt_before, ptt_now, true).contains(
            HotkeyEvent::PttReleased,
        ),
{
    let e = transition_events(toggle_before, toggle_now, ptt_before, ptt_now, false);
    let es = transition_events(toggle_before, toggle_now, ptt_before, ptt_now, true);
    if !ptt_before && ptt_now {
        assert(e[e.len() - 1] == HotkeyEvent::PttPressed);
    }
    if ptt_before && !ptt_now {
        assert(e[e.len() - 1] == HotkeyEvent::PttReleased);
    }
    if !toggle_before && toggle_now {
        assert(es[0] == HotkeyEvent::TogglePressed);
    }
}

/// The state a hotkey backend keeps apart from its OS event thread: whether it
/// runs, the queue of events not yet received, why it is unavailable, and
/// whether PTT events are suppressed.
pub struct HotkeyBackendState {
    running: bool,
    receiver: Option<VecDeque<HotkeyEvent>>,
    unavailable_reason: Option<String>,
    auto_mode_state: AutoModeState,
}

/// Message given when starting a backend that is already running.
pub open spec fn already_running_message() -> Seq<char> {
    "Hotkey backend already running"@
}

/// Message given when starting a backend with no combination at all.
pub open spec fn no_combinations_message() -> Seq<char> {
    "No hotkey combinations configured"@
}

/// Message given on macOS when Accessibility permission is missing.
pub open spec fn accessibility_required_message() -> Seq<char> {
    "Push-to-Talk requires Accessibility permission to detect hotkeys. Grant permission to FlowSTT in System Settings > Privacy & Security > Accessibility, then restart FlowSTT."@
}

impl HotkeyBackendState {
    pub closed spec fn spec_running(&self) -> bool {
        self.running
    }

    /// Whether PTT events are suppressed because auto mode is active.
    pub closed spec fn spec_auto_mode_active(&self) -> bool {
        self.auto_mode_state.is_active
    }

    /// Events delivered but not yet received; `None` when no receiver exists.
    pub closed spec fn spec_pending(&self) -> Option<Seq<HotkeyEvent>> {
        match self.receiver {
            Some(q) => Some(q@),
            None => None,
        }
    }

    pub closed spec fn spec_unavailable_reason(&self) -> Option<Seq<char>> {
        match self.unavailable_reason {
            Some(s) => Some(s@),
            None => None,
        }
    }

    /// A stopped backend with no receiver and no recorded reason.
    pub fn new() -> (r: Self)
        ensures
            !r.spec_running(),
            r.spec_pending() is None,
            r.spec_unavailable_reason() is None,
            !r.spec_auto_mode_active(),
    {
        HotkeyBackendState {
            running: false,
            receiver: None,
            unavailable_reason: None,
            auto_mode_state: AutoModeState::new(),
        }
    }

    /// Decide whether monitoring may start and, if so, mark the backend as
    /// running with a fresh event queue. `needs_permission` holds on macOS,
    /// where `permission_granted` reports the Accessibility check.
    pub fn start(
        &mut self,
        ptt_count: usize,
        toggle_count: usize,
        needs_permission: bool,
        permission_granted: bool,
    ) -> (r: Result<(), String>)
        ensures
            final(self).spec_auto_mode_active() == old(self).spec_auto_mode_active(),
            old(self).spec_running() ==> r is Err && r->Err_0@ == already_running_message()
                && final(self).spec_running() == old(self).spec_running()
                && final(self).spec_pending() == old(self).spec_pending()
                && final(self).spec_unavailable_reason() == old(self).spec_unavailable_reason(),
            !old(self).spec_running() && ptt_count == 0 && toggle_count == 0 ==> r is Err
                && r->Err_0@ == no_combinations_message() && !final(self).spec_running()
                && final(self).spec_pending() == old(self).spec_pending()
                && final(self).spec_unavailable_reason() == old(self).spec_unavailable_reason(),
            !old(self).spec_running() && (ptt_count > 0 || toggle_count > 0) && needs_permission
                && !permission_granted ==> r is Err && r->Err_0@ == accessibility_required_message()
                && !final(self).spec_running() && final(self).spec_pending()
                == old(self).spec_pending() && final(self).spec_unavailable_reason() == Some(
                accessibility_required_message(),
            ),
            !old(self).spec_running() && (ptt_count > 0 || toggle_count > 0) && (!needs_permission
                || permission_granted) ==> r is Ok && final(self).spec_running()
                && final(self).spec_pending() == Some(Seq::<HotkeyEvent>::empty())
                && final(self).spec_unavailable_reason() is None,
    {
        if self.running {
            return Err(String::from_str("Hotkey backend already running"));
        }
        if ptt_count == 0 && toggle_count == 0 {
            return Err(String::from_str("No hotkey combinations configured"));
        }
        if needs_permission && !permission_granted {
            let msg = String::from_str(
                "Push-to-Talk requires Accessibility permission to detect hotkeys. Grant permission to FlowSTT in System Settings > Privacy & Security > Accessibility, then restart FlowSTT.",
            );
            self.unavailable_reason = Some(msg.clone());
            return Err(msg);
        }
        self.receiver = Some(VecDeque::new());
        self.running = true;
        self.unavailable_reason = None;
        Ok(())
    }

    /// The event thread could not be set up: mark the backend as stopped.
    pub fn abort_start(&mut self) -> (r: String)
        ensures
            !final(self).spec_running(),
            final(self).spec_pending() == old(self).spec_pending(),
            final(self).spec_unavailable_reason() == old(self).spec_unavailable_reason(),
            final(self).spec_auto_mode_active() == old(self).spec_auto_mode_active(),
            r@ == "Failed to get message loop thread ID"@,
    {
        self.running = false;
        String::from_str("Failed to get message loop thread ID")
    }

    /// Stop monitoring. Returns whether the backend was running, in which case
    /// its event thread must be told to quit and joined; the receiver is dropped.
    pub fn stop(&mut self) -> (r: bool)
        ensures
            r == old(self).spec_running(),
            !final(self).spec_running(),
            r ==> final(self).spec_pending() is None,
            !r ==> final(self).spec_pending() == old(self).spec_pending(),
            final(self).spec_unavailable_reason() == old(self).spec_unavailable_reason(),
            final(self).spec_auto_mode_active() == old(self).spec_auto_mode_active(),
    {
        if !self.running {
            return false;
        }
        self.running = false;
        self.receiver = None;
        true
    }

    /// The event thread delivered an event.
    pub fn deliver(&mut self, event: HotkeyEvent)
        ensures
            final(self).spec_running() == old(self).spec_running(),
            final(self).spec_unavailable_reason() == old(self).spec_unavailable_reason(),
            final(self).spec_auto_mode_active() == old(self).spec_auto_mode_active(),
            final(self).spec_pending() == match old(self).spec_pending() {
                Some(q) => Some(q.push(event)),
                None => None,
            },
    {
        match &mut self.receiver {
            Some(q) => {
                q.push_back(event);
            },
            None => {},
        }
    }

    /// Take the oldest pending event, if any.
    pub fn try_recv(&mut self) -> (r: Option<HotkeyEvent>)
        ensures
            final(self).spec_running() == old(self).spec_running(),
            final(self).spec_unavailable_reason() == old(self).spec_unavailable_reason(),
            final(self).spec_auto_mode_active() == old(self).spec_auto_mode_active(),
            match old(self).spec_pending() {
                Some(q) => if q.len() > 0 {
                    r == Some(q[0]) && final(self).spec_pending() == Some(q.drop_first())
                } else {
                    r is None && final(self).spec_pending() == old(self).spec_pending()
                },
                None => r is None && final(self).spec_pending() is None,
            },
    {
        match &mut self.receiver {
            Some(q) => q.pop_front(),
            None => None,
        }
    }

    pub fn is_running(&self) -> (r: bool)
        ensures
            r == self.spec_running(),
    {
        self.running
    }

    /// Global hotkeys need no special support on the implemented platforms.
    pub fn is_available(&self) -> (r: bool)
        ensures
            r,
    {
        true
    }

    pub fn unavailable_reason(&self) -> (r: Option<String>)
        ensures
            match r {
                Some(s) => self.spec_unavailable_reason() == Some(s@),
                None => self.spec_unavailable_reason() is None,
            },
    {
        match &self.unavailable_reason {
            Some(s) => Some(s.clone()),
            None => None,
        }
    }

    /// Set whether auto mode is active (PTT events are then suppressed).
    pub fn set_auto_mode_active(&mut self, active: bool)
        ensures
            final(self).spec_auto_mode_active() == active,
            final(self).spec_running() == old(self).spec_running(),
            final(self).spec_pending() == old(self).spec_pending(),
            final(self).spec_unavailable_reason() == old(self).spec_unavailable_reason(),
    {
        self.auto_mode_state.set_active(active);
    }
}

impl HotkeyBackendState {
    /// A key event seen by the backend's event thread: the matcher learns it,
    /// with push-to-talk reports suppressed exactly while the recorded auto
    /// mode is active, and the events it reports are delivered in order.
    pub fn handle_key(
        &mut self,
        matcher: &mut HotkeyMatcher,
        key: KeyCode,
        is_key_up: bool,
    ) -> (events: Vec<HotkeyEvent>)
        requires
            old(matcher).wf(),
        ensures
            final(matcher).wf(),
            final(matcher).ptt_hotkeys == old(matcher).ptt_hotkeys,
            final(matcher).toggle_hotkeys == old(matcher).toggle_hotkeys,
            final(matcher).pressed_keys@ == (if is_key_up {
                old(matcher).pressed_keys@.remove(key)
            } else {
                old(matcher).pressed_keys@.insert(key)
            }),
            final(matcher).any_toggle_matched == any_combo_held(
                old(matcher).toggle_hotkeys@,
                final(matcher).pressed_keys@,
            ),
            final(matcher).any_ptt_matched == any_combo_held(
                old(matcher).ptt_hotkeys@,
                final(matcher).pressed_keys@,
            ),
            events@ == transition_events(
                old(matcher).any_toggle_matched,
                final(matcher).any_toggle_matched,
                old(matcher).any_ptt_matched,
                final(matcher).any_ptt_matched,
                old(self).spec_auto_mode_active(),
            ),
            final(self).spec_running() == old(self).spec_running(),
            final(self).spec_unavailable_reason() == old(self).spec_unavailable_reason(),
            final(self).spec_auto_mode_active() == old(self).spec_auto_mode_active(),
            final(self).spec_pending() == match old(self).spec_pending() {
                Some(q) => Some(q + events@),
                None => None,
            },
    {
        let suppress = self.auto_mode_state.is_active();
        let events = matcher.on_key(key, is_key_up, suppress);
        let mut i: usize = 0;
        while i < events.len()
            invariant
                0 <= i <= events@.len(),
                self.spec_running() == old(self).spec_running(),
                self.spec_unavailable_reason() == old(self).spec_unavailable_reason(),
                self.spec_auto_mode_active() == old(self).spec_auto_mode_active(),
                self.spec_pending() == match old(self).spec_pending() {
                    Some(q) => Some(q + events@.subrange(0, i as int)),
                    None => None,
                },
            decreases events@.len() - i,
        {
            self.deliver(events[i]);
            proof {
                match old(self).spec_pending() {
                    Some(q) => {
                        assert(q + events@.subrange(0, i + 1) =~= (q + events@.subrange(
                            0,
                            i as int,
                        )).push(events@[i as int]));
                    },
                    None => {},
                }
            }
            i = i + 1;
        }
        assert(events@.subrange(0, events@.len() as int) =~= events@);
        events
    }
}

/// While the recorded auto mode is active, a backend's key handling reports
/// no push-to-talk press or release, yet still reports a toggle press when a
/// toggle combination becomes held; with auto mode off, presses and
/// releases follow the push-to-talk match.
pub proof fn lemma_auto_mode_suppresses_ptt(
    auto_mode_active: bool,
    toggle_before: bool,
    toggle_now: bool,
    ptt_before: bool,
    ptt_now: bool,
)
    ensures
        ({
            let e = transition_events(toggle_before, toggle_now, ptt_before, ptt_now, auto_mode_active);
            &&& auto_mode_active ==> !e.contains(HotkeyEvent::PttPressed) && !e.contains(
                HotkeyEvent::PttReleased,
            )
            &&& e.contains(HotkeyEvent::TogglePressed) <==> (!toggle_before && toggle_now)
            &&& !auto_mode_active ==> (e.contains(HotkeyEvent::PttPressed) <==> (!ptt_before
                && ptt_now))
            &&& !auto_mode_active ==> (e.contains(HotkeyEvent::PttReleased) <==> (ptt_before
                && !ptt_now))
        }),
{
    lemma_ptt_events_follow_match(toggle_before, toggle_now, ptt_before, ptt_now);
    let e = transition_events(toggle_before, toggle_now, ptt_before, ptt_now, false);
    if !toggle_before && toggle_now {
        assert(e[0] == HotkeyEvent::TogglePressed);
    }
    if e.contains(HotkeyEvent::TogglePressed) {
        let k = choose|k: int| 0 <= k < e.len() && e[k] == HotkeyEvent::TogglePressed;
        if !(!toggle_before && toggle_now) {
            assert(e[k] != HotkeyEvent::TogglePressed);
        }
    }
    let es = transition_events(toggle_before, toggle_now, ptt_before, ptt_now, true);
    if es.contains(HotkeyEvent::TogglePressed) {
        let k = choose|k: int| 0 <= k < es.len() && es[k] == HotkeyEvent::TogglePressed;
        if !(!toggle_before && toggle_now) {
            assert(es[k] != HotkeyEvent::TogglePressed);
        }
    }
}

/// Whether global hotkey capture exists on a platform.
pub open spec fn hotkeys_supported(p: Platform) -> bool {
    p != Platform::Other
}

/// Install the platform's hotkey backend in the (empty) singleton slot.
pub fn init_hotkey_backend(slot: &mut Option<HotkeyBackendState>, platform: Platform) -> (r: Result<(), String>)
    ensures
        !hotkeys_supported(platform) ==> r is Err && r->Err_0@
            == "Unsupported platform for hotkey capture"@ && *final(slot) == *old(slot),
        hotkeys_supported(platform) && (*old(slot)) is Some ==> r is Err && r->Err_0@
            == "Hotkey backend already initialized"@ && *final(slot) == *old(slot),
        hotkeys_supported(platform) && (*old(slot)) is None ==> r is Ok && (*final(slot)) is Some
            && !(*final(slot))->0.spec_running() && (*final(slot))->0.spec_pending() is None
            && (*final(slot))->0.spec_unavailable_reason() is None
            && !(*final(slot))->0.spec_auto_mode_active(),
{
    if platform == Platform::Other {
        return Err(String::from_str("Unsupported platform for hotkey capture"));
    }
    if slot.is_some() {
        return Err(String::from_str("Hotkey backend already initialized"));
    }
    *slot = Some(HotkeyBackendState::new());
    Ok(())
}

/// A backend as it is first installed: stopped, without receiver, reason or
/// auto mode.
pub open spec fn is_fresh_backend(b: HotkeyBackendState) -> bool {
    &&& !b.spec_running()
    &&& b.spec_pending() is None
    &&& b.spec_unavailable_reason() is None
    &&& !b.spec_auto_mode_active()
}

/// What a query does to an empty slot: a supported platform's backend is
/// installed fresh, otherwise the slot stays empty.
pub open spec fn installs_if_empty(
    before: Option<HotkeyBackendState>,
    after: Option<HotkeyBackendState>,
    platform: Platform,
) -> bool {
    before is None ==> (if hotkeys_supported(platform) {
        after is Some && is_fresh_backend(after->0)
    } else {
        after is None
    })
}

/// The backend, initializing the slot first if it is empty.
fn ensure_backend(slot: &mut Option<HotkeyBackendState>, platform: Platform)
    ensures
        (*old(slot)) is Some ==> *final(slot) == *old(slot),
        (*old(slot)) is None && hotkeys_supported(platform) ==> (*final(slot)) is Some
            && !(*final(slot))->0.spec_running() && (*final(slot))->0.spec_pending() is None
            && (*final(slot))->0.spec_unavailable_reason() is None
            && !(*final(slot))->0.spec_auto_mode_active(),
        (*old(slot)) is None && !hotkeys_supported(platform) ==> (*final(slot)) is None,
{
    if slot.is_none() {
        let _ = init_hotkey_backend(slot, platform);
    }
}

/// Stop hotkey monitoring. Returns whether a running backend was stopped (its
/// event thread must then be joined).
pub fn stop_hotkey(slot: &mut Option<HotkeyBackendState>, platform: Platform) -> (r: bool)
    ensures
        (*old(slot)) is Some ==> (*final(slot)) is Some && !(*final(slot))->0.spec_running()
            && r == (*old(slot))->0.spec_running() && (if r {
            (*final(slot))->0.spec_pending() is None
        } else {
            (*final(slot))->0.spec_pending() == (*old(slot))->0.spec_pending()
        }) && (*final(slot))->0.spec_unavailable_reason() == (*old(slot))->0.spec_unavailable_reason()
            && (*final(slot))->0.spec_auto_mode_active() == (*old(slot))->0.spec_auto_mode_active(),
        (*old(slot)) is None ==> !r && installs_if_empty(*old(slot), *final(slot), platform),
{
    ensure_backend(slot, platform);
    match slot {
        Some(b) => b.stop(),
        None => false,
    }
}

/// Try to receive a hotkey event (non-blocking).
pub fn try_recv_hotkey(slot: &mut Option<HotkeyBackendState>, platform: Platform) -> (r: Option<HotkeyEvent>)
    ensures
        (*old(slot)) is Some ==> (*final(slot)) is Some && match (*old(slot))->0.spec_pending() {
            Some(q) => if q.len() > 0 {
                r == Some(q[0]) && (*final(slot))->0.spec_pending() == Some(q.drop_first())
            } else {
                r is None
            },
            None => r is None,
        },
        (*old(slot)) is Some ==> (*final(slot))->0.spec_running() == (*old(slot))->0.spec_running()
            && (*final(slot))->0.spec_unavailable_reason() == (*old(slot))->0.spec_unavailable_reason()
            && (*final(slot))->0.spec_auto_mode_active() == (*old(slot))->0.spec_auto_mode_active()
            && (r is None ==> (*final(slot))->0.spec_pending() == (*old(slot))->0.spec_pending()),
        (*old(slot)) is None ==> r is None && installs_if_empty(*old(slot), *final(slot), platform),
{
    ensure_backend(slot, platform);
    match slot {
        Some(b) => b.try_recv(),
        None => None,
    }
}

/// Whether hotkey capture is available on this platform.
pub fn is_hotkey_available(slot: &mut Option<HotkeyBackendState>, platform: Platform) -> (r: bool)
    ensures
        r == ((*old(slot)) is Some || hotkeys_supported(platform)),
        (*old(slot)) is Some ==> *final(slot) == *old(slot),
        installs_if_empty(*old(slot), *final(slot), platform),
{
    ensure_backend(slot, platform);
    match slot {
        Some(b) => b.is_available(),
        None => false,
    }
}

/// Why hotkey capture is unavailable, if any reason was recorded.
pub fn hotkey_unavailable_reason(slot: &mut Option<HotkeyBackendState>, platform: Platform) -> (r: Option<String>)
    ensures
        (*old(slot)) is Some ==> match r {
            Some(s) => (*old(slot))->0.spec_unavailable_reason() == Some(s@),
            None => (*old(slot))->0.spec_unavailable_reason() is None,
        },
        (*old(slot)) is Some ==> *final(slot) == *old(slot),
        (*old(slot)) is None ==> r is None && installs_if_empty(*old(slot), *final(slot), platform),
{
    ensure_backend(slot, platform);
    match slot {
        Some(b) => b.unavailable_reason(),
        None => None,
    }
}

/// Whether Accessibility permission is available: the process's own trust
/// state on macOS, and always true elsewhere.
pub fn check_accessibility_permission(platform: Platform, process_trusted: bool) -> (r: bool)
    ensures
        r == (platform != Platform::MacOS || process_trusted),
{
    if platform == Platform::MacOS {
        process_trusted
    } else {
        true
    }
}

/// Outcome of asking macOS for Accessibility permission (the prompt is shown
/// by the caller): the trust state it reported on macOS, true elsewhere.
pub fn request_accessibility_permission(platform: Platform, trusted_after_prompt: bool) -> (r: bool)
    ensures
        r == (platform != Platform::MacOS || trusted_after_prompt),
{
    if platform == Platform::MacOS {
        trusted_after_prompt
    } else {
        true
    }
}

/// Set whether auto mode is active (affects PTT event suppression).
pub fn set_auto_mode_active(slot: &mut Option<HotkeyBackendState>, platform: Platform, active: bool)
    ensures
        (*old(slot)) is Some ==> (*final(slot)) is Some && (*final(slot))->0.spec_auto_mode_active()
            == active && (*final(slot))->0.spec_running() == (*old(slot))->0.spec_running()
            && (*final(slot))->0.spec_pending() == (*old(slot))->0.spec_pending()
            && (*final(slot))->0.spec_unavailable_reason() == (*old(slot))->0.spec_unavailable_reason(),
        (*old(slot)) is None && hotkeys_supported(platform) ==> (*final(slot)) is Some
            && (*final(slot))->0.spec_auto_mode_active() == active
            && !(*final(slot))->0.spec_running() && (*final(slot))->0.spec_pending() is None
            && (*final(slot))->0.spec_unavailable_reason() is None,
        (*old(slot)) is None && !hotkeys_supported(platform) ==> (*final(slot)) is None,
{
    ensure_backend(slot, platform);
    match slot {
        Some(b) => b.set_auto_mode_active(active),
        None => {},
    }
}

} // verus!
