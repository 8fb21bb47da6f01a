//! The per-event state machine: classifies a raw keyboard event, feeds the
//! Hyper tracker, resolves and plans remaps, and tells the hook whether to
//! suppress the event.

use crate::action::{ActionMappingEntry, ActionMappingEntryView};
use crate::caps::CapsState;
use crate::effect::{
    active_modifier_flags, active_modifiers, effects_view, is_injected_marker, shift_is_held,
    Effect, EffectView, FLAG_SHIFT, INJECTED_EVENT_MAGIC,
};
use crate::executor::{execute_action_mapping, planned_effects};
use crate::keys::{
    mac_keycode_to_js_keycode, mac_logical_key, windows_logical_key, windows_vk_to_js_keycode,
    KC_CAPS_LOCK, KC_F18, VK_CAPITAL,
};
use crate::platform::Platform;
use crate::table::{resolve_action_mapping, resolve_spec, table_view, unique_pairs};
use vstd::prelude::*;

verus! {

// Event types of the macOS event tap.
pub const MAC_EVENT_KEY_DOWN: u32 = 10;

pub const MAC_EVENT_KEY_UP: u32 = 11;

pub const MAC_EVENT_FLAGS_CHANGED: u32 = 12;

pub const MAC_EVENT_TAP_DISABLED_BY_TIMEOUT: u32 = 0xFFFF_FFFE;

pub const MAC_EVENT_TAP_DISABLED_BY_USER_INPUT: u32 = 0xFFFF_FFFF;

// Messages of the Windows low-level keyboard hook.
pub const WM_KEYDOWN: u32 = 0x0100;

pub const WM_KEYUP: u32 = 0x0101;

pub const WM_SYSKEYDOWN: u32 = 0x0104;

pub const WM_SYSKEYUP: u32 = 0x0105;

/// Flag bit that Windows sets on events that were injected.
pub const LLKHF_INJECTED: u32 = 0x10;

/// What the macOS event tap delivers, as plain values.
#[derive(Clone, Copy, Debug, PartialEq, Eq)]
pub struct MacKeyEvent {
    /// The event type, as its number.
    pub event_type: u32,
    /// The event's key-code field.
    pub keycode: i64,
    /// The event's flags.
    pub flags: u64,
    /// The event's source user-data field, where the stamp of the engine's
    /// own events sits.
    pub user_data: i64,
}

/// What the Windows low-level keyboard hook delivers, as plain values.
#[derive(Clone, Copy, Debug, PartialEq, Eq)]
pub struct WindowsKeyEvent {
    /// The hook code; negative codes are not for the hook to process.
    pub code: i32,
    /// The keyboard message.
    pub message: u32,
    /// The virtual-key code.
    pub vk_code: u32,
    /// The event's flags.
    pub flags: u32,
    /// Whether Shift is down at the time of the event.
    pub shift_down: bool,
}

/// How the Hyper key moved.
#[derive(Clone, Copy, Debug, PartialEq, Eq, Structural)]
pub enum Edge {
    Down,
    Up,
    /// Neither: a change of flags reported under the Hyper key's code.
    Other,
}

/// One normalized transition of a key other than the Hyper key.
#[derive(Clone, Copy, Debug, PartialEq, Eq)]
pub struct KeyTransition {
    /// The logical key, where the native code has one.
    pub key: Option<u16>,
    pub native_code: u16,
    pub down: bool,
    /// The active modifiers, as flag bits: Shift, Control, Alternate,
    /// Command and Fn.
    pub modifiers: u64,
}

/// What a raw event is to the engine.
#[derive(Clone, Copy, Debug, PartialEq, Eq)]
pub enum EventClass {
    /// Not to be touched: the engine's own output, any event while paused,
    /// or an event that the hook was told to skip.
    Bypass,
    /// Notice that the operating system disabled the event tap.
    TapDisabled,
    /// A transition of the Hyper key.
    Hyper { edge: Edge },
    /// A change of flags under the raw CapsLock code, which reaches the hook
    /// where the HID-level remap is not active.
    RawCapsLock,
    /// A transition of another key: a remap candidate while Hyper is held.
    Key { transition: KeyTransition },
}

/// What becomes of the intercepted event.
#[derive(Clone, Copy, Debug, PartialEq, Eq, Structural)]
pub enum Verdict {
    /// The event goes on to the rest of the system unchanged.
    PassThrough,
    /// The event is consumed; nothing else in the system sees it.
    Suppress,
}

/// The engine's answer to one event.
#[derive(Debug, PartialEq, Eq)]
pub struct Outcome {
    pub verdict: Verdict,
    /// What the caller does now, in order.
    pub effects: Vec<Effect>,
}

/// Mathematical value of an [`Outcome`].
pub struct OutcomeView {
    pub verdict: Verdict,
    pub effects: Seq<EffectView>,
}

impl View for Outcome {
    type V = OutcomeView;

    open spec fn view(&self) -> OutcomeView {
        OutcomeView { verdict: self.verdict, effects: effects_view(self.effects@) }
    }
}

/// Whether a macOS event type is a notice that the tap was disabled.
pub open spec fn is_tap_disabled(event_type: u32) -> bool {
    event_type == MAC_EVENT_TAP_DISABLED_BY_TIMEOUT || event_type
        == MAC_EVENT_TAP_DISABLED_BY_USER_INPUT
}

/// What a macOS event is to the engine.
pub open spec fn mac_event_class(event: MacKeyEvent, paused: bool) -> EventClass {
    let keycode = event.keycode as u16;
    if is_tap_disabled(event.event_type) {
        EventClass::TapDisabled
    } else if event.user_data == INJECTED_EVENT_MAGIC {
        EventClass::Bypass
    } else if paused {
        EventClass::Bypass
    } else if keycode == KC_F18 {
        EventClass::Hyper {
            edge: if event.event_type == MAC_EVENT_KEY_DOWN {
                Edge::Down
            } else if event.event_type == MAC_EVENT_KEY_UP {
                Edge::Up
            } else {
                Edge::Other
            },
        }
    } else if event.event_type == MAC_EVENT_FLAGS_CHANGED && keycode == KC_CAPS_LOCK {
        EventClass::RawCapsLock
    } else {
        EventClass::Key {
            transition: KeyTransition {
                key: mac_logical_key(keycode),
                native_code: keycode,
                down: event.event_type == MAC_EVENT_KEY_DOWN,
                modifiers: active_modifiers(event.flags),
            },
        }
    }
}

/// Whether a Windows keyboard message reports a key going down.
pub open spec fn is_down_message(message: u32) -> bool {
    message == WM_KEYDOWN || message == WM_SYSKEYDOWN
}

/// Whether a Windows keyboard message reports a key coming up.
pub open spec fn is_up_message(message: u32) -> bool {
    message == WM_KEYUP || message == WM_SYSKEYUP
}

/// Whether Windows marked the event as injected.
pub open spec fn windows_event_is_injected(event: WindowsKeyEvent) -> bool {
    event.flags & LLKHF_INJECTED != 0
}

/// What a Windows event is to the engine.
pub open spec fn windows_event_class(event: WindowsKeyEvent, paused: bool) -> EventClass {
    let vk = event.vk_code as u16;
    if event.code < 0 || paused {
        EventClass::Bypass
    } else if windows_event_is_injected(event) {
        EventClass::Bypass
    } else if is_down_message(event.message) {
        if vk == VK_CAPITAL {
            EventClass::Hyper { edge: Edge::Down }
        } else {
            EventClass::Key {
                transition: KeyTransition {
                    key: windows_logical_key(vk),
                    native_code: vk,
                    down: true,
                    modifiers: if event.shift_down {
                        FLAG_SHIFT
                    } else {
                        0
                    },
                },
            }
        }
    } else if is_up_message(event.message) {
        if vk == VK_CAPITAL {
            EventClass::Hyper { edge: Edge::Up }
        } else {
            EventClass::Key {
                transition: KeyTransition {
                    key: windows_logical_key(vk),
                    native_code: vk,
                    down: false,
                    modifiers: if event.shift_down {
                        FLAG_SHIFT
                    } else {
                        0
                    },
                },
            }
        }
    } else {
        EventClass::Bypass
    }
}

/// Classifies an event of the macOS event tap.
pub fn classify_mac_event(event: &MacKeyEvent, paused: bool) -> (class: EventClass)
    ensures
        class == mac_event_class(*event, paused),
{
    if event.event_type == MAC_EVENT_TAP_DISABLED_BY_TIMEOUT || event.event_type
        == MAC_EVENT_TAP_DISABLED_BY_USER_INPUT {
        return EventClass::TapDisabled;
    }
    if is_injected_marker(event.user_data) {
        return EventClass::Bypass;
    }
    if paused {
        return EventClass::Bypass;
    }
    let keycode = #[verifier::truncate]
    (event.keycode as u16);
    if keycode == KC_F18 {
        let edge = if event.event_type == MAC_EVENT_KEY_DOWN {
            Edge::Down
        } else if event.event_type == MAC_EVENT_KEY_UP {
            Edge::Up
        } else {
            Edge::Other
        };
        return EventClass::Hyper { edge };
    }
    if event.event_type == MAC_EVENT_FLAGS_CHANGED && keycode == KC_CAPS_LOCK {
        return EventClass::RawCapsLock;
    }
    EventClass::Key {
        transition: KeyTransition {
            key: mac_keycode_to_js_keycode(keycode),
            native_code: keycode,
            down: event.event_type == MAC_EVENT_KEY_DOWN,
            modifiers: active_modifier_flags(event.flags),
        },
    }
}

/// Classifies an event of the Windows low-level keyboard hook.
pub fn classify_windows_event(event: &WindowsKeyEvent, paused: bool) -> (class: EventClass)
    ensures
        class == windows_event_class(*event, paused),
{
    if event.code < 0 || paused {
        return EventClass::Bypass;
    }
    if event.flags & LLKHF_INJECTED != 0 {
        return EventClass::Bypass;
    }
    let is_down = event.message == WM_KEYDOWN || event.message == WM_SYSKEYDOWN;
    let is_up = event.message == WM_KEYUP || event.message == WM_SYSKEYUP;
    if !is_down && !is_up {
        return EventClass::Bypass;
    }
    let vk = #[verifier::truncate]
    (event.vk_code as u16);
    if vk == VK_CAPITAL {
        let edge = if is_down {
            Edge::Down
        } else {
            Edge::Up
        };
        return EventClass::Hyper { edge };
    }
    EventClass::Key {
        transition: KeyTransition {
            key: windows_vk_to_js_keycode(vk),
            native_code: vk,
            down: is_down,
            modifiers: if event.shift_down {
                FLAG_SHIFT
            } else {
                0
            },
        },
    }
}

/// The engine context: the pause switch, the Hyper tracker and the mapping
/// table.
#[derive(Debug)]
pub struct Engine {
    pub paused: bool,
    pub caps: CapsState,
    pub mappings: Vec<ActionMappingEntry>,
}

/// Mathematical value of an [`Engine`].
pub struct EngineView {
    pub paused: bool,
    pub caps: CapsState,
    pub table: Seq<ActionMappingEntryView>,
}

impl View for Engine {
    type V = EngineView;

    open spec fn view(&self) -> EngineView {
        EngineView { paused: self.paused, caps: self.caps, table: table_view(self.mappings@) }
    }
}

/// An engine and its answer, after one event.
pub struct StepView {
    pub engine: EngineView,
    pub outcome: OutcomeView,
}

/// The answer that leaves the event alone and asks for nothing.
pub open spec fn pass_through() -> OutcomeView {
    OutcomeView { verdict: Verdict::PassThrough, effects: Seq::empty() }
}

/// The answer that consumes the event and asks for `effects`.
pub open spec fn suppress(effects: Seq<EffectView>) -> OutcomeView {
    OutcomeView { verdict: Verdict::Suppress, effects }
}


/// The binding that answers a key transition: the one that the table
/// resolves for the transition's logical key under its Shift state, and none
/// where the key has no logical code.
pub open spec fn candidate_binding(
    table: Seq<ActionMappingEntryView>,
    transition: KeyTransition,
) -> Option<ActionMappingEntryView> {
    match transition.key {
        Some(key) => resolve_spec(table, key, shift_is_held(transition.modifiers)),
        None => None,
    }
}

/// The binding that a key transition triggers: its candidate binding while
/// Hyper is held, and none otherwise.
pub open spec fn remap_of(engine: EngineView, transition: KeyTransition) -> Option<
    ActionMappingEntryView,
> {
    if engine.caps.held() {
        candidate_binding(engine.table, transition)
    } else {
        None
    }
}

/// Offers a key transition to the table, as is done while Hyper is held.
/// Where a binding answers, returns the effects that stand for its action on
/// this edge; the event is then to be suppressed. Where none answers,
/// returns `None`; the event is then to pass through.
pub fn handle_caps_remap(
    mappings: &Vec<ActionMappingEntry>,
    transition: &KeyTransition,
    platform: Platform,
) -> (handled: Option<Vec<Effect>>)
    ensures
        handled is Some <==> candidate_binding(table_view(mappings@), *transition) is Some,
        handled matches Some(effects) ==> effects_view(effects@) == planned_effects(
            candidate_binding(table_view(mappings@), *transition)->0.action,
            transition.down,
            transition.modifiers,
            platform,
        ),
{
    let shift_held = transition.modifiers & FLAG_SHIFT != 0;
    let key = match transition.key {
        Some(key) => key,
        None => {
            return None;
        },
    };
    match resolve_action_mapping(mappings, key, shift_held) {
        Some(entry) => Some(
            execute_action_mapping(
                &entry.action,
                transition.down,
                transition.modifiers,
                platform,
            ),
        ),
        None => None,
    }
}

/// Whether a disabled event tap can be re-armed: only where its
/// registration yielded a port. A port of zero stands for none, and
/// re-arming is then skipped.
pub fn reenable_event_tap(tap_port: usize) -> (attempt: bool)
    ensures
        attempt == (tap_port != 0),
{
    tap_port != 0
}

/// The engine with another Hyper state.
pub open spec fn with_caps(engine: EngineView, caps: CapsState) -> EngineView {
    EngineView { paused: engine.paused, caps, table: engine.table }
}

/// One step of the state machine: the engine after an event of the given
/// class at time `now`, and its answer.
pub open spec fn step_spec(
    engine: EngineView,
    class: EventClass,
    now: u64,
    platform: Platform,
) -> StepView {
    match class {
        EventClass::Bypass => StepView { engine, outcome: pass_through() },
        EventClass::TapDisabled => StepView {
            engine,
            outcome: OutcomeView {
                verdict: Verdict::PassThrough,
                effects: seq![EffectView::RearmEventTap],
            },
        },
        EventClass::Hyper { edge } => match edge {
            Edge::Down => StepView {
                engine: with_caps(engine, engine.caps.after_press(now)),
                outcome: suppress(Seq::empty()),
            },
            Edge::Up => StepView {
                engine: with_caps(engine, engine.caps.after_release()),
                outcome: suppress(
                    if engine.caps.release_toggles(now, platform) {
                        seq![EffectView::ToggleCapsLock]
                    } else {
                        Seq::empty()
                    },
                ),
            },
            Edge::Other => StepView { engine, outcome: suppress(Seq::empty()) },
        },
        EventClass::RawCapsLock => StepView { engine, outcome: suppress(Seq::empty()) },
        EventClass::Key { transition } => match remap_of(engine, transition) {
            Some(entry) => StepView {
                engine: with_caps(engine, engine.caps.after_remap()),
                outcome: suppress(
                    planned_effects(entry.action, transition.down, transition.modifiers, platform),
                ),
            },
            None => StepView { engine, outcome: pass_through() },
        },
    }
}

impl Engine {
    /// Whether the table binds every `(key, with_shift)` pair at most once.
    pub open spec fn wf(&self) -> bool {
        unique_pairs(table_view(self.mappings@))
    }

    /// Takes one classified event at time `now_ms`.
    pub fn step(&mut self, class: EventClass, now_ms: u64, platform: Platform) -> (outcome:
        Outcome)
        ensures
            final(self)@ == step_spec(old(self)@, class, now_ms, platform).engine,
            outcome@ == step_spec(old(self)@, class, now_ms, platform).outcome,
            final(self).mappings@ == old(self).mappings@,
            final(self).paused == old(self).paused,
    {
        let mut effects: Vec<Effect> = Vec::new();
        assert(effects_view(effects@) =~= Seq::empty());
        match class {
            EventClass::Bypass => Outcome { verdict: Verdict::PassThrough, effects },
            EventClass::TapDisabled => {
                effects.push(Effect::RearmEventTap);
                assert(effects_view(effects@) =~= seq![EffectView::RearmEventTap]);
                Outcome { verdict: Verdict::PassThrough, effects }
            },
            EventClass::Hyper { edge } => {
                match edge {
                    Edge::Down => {
                        self.caps.press(now_ms);
                    },
                    Edge::Up => {
                        if self.caps.release(now_ms, platform) {
                            effects.push(Effect::ToggleCapsLock);
                            assert(effects_view(effects@) =~= seq![EffectView::ToggleCapsLock]);
                        }
                    },
                    Edge::Other => {},
                }
                Outcome { verdict: Verdict::Suppress, effects }
            },
            EventClass::RawCapsLock => Outcome { verdict: Verdict::Suppress, effects },
            EventClass::Key { transition } => {
                if !self.caps.is_held() {
                    return Outcome { verdict: Verdict::PassThrough, effects };
                }
                match handle_caps_remap(&self.mappings, &transition, platform) {
                    Some(planned) => {
                        self.caps.note_remap();
                        Outcome { verdict: Verdict::Suppress, effects: planned }
                    },
                    None => Outcome { verdict: Verdict::PassThrough, effects },
                }
            },
        }
    }

    /// Takes one event of the macOS event tap, read at time `now_ms`.
    pub fn handle_mac_event(&mut self, event: &MacKeyEvent, now_ms: u64) -> (outcome: Outcome)
        ensures
            final(self)@ == step_spec(
                old(self)@,
                mac_event_class(*event, old(self).paused),
                now_ms,
                Platform::MacOs,
            ).engine,
            outcome@ == step_spec(
                old(self)@,
                mac_event_class(*event, old(self).paused),
                now_ms,
                Platform::MacOs,
            ).outcome,
            final(self).mappings@ == old(self).mappings@,
            final(self).paused == old(self).paused,
    {
        let class = classify_mac_event(event, self.paused);
        self.step(class, now_ms, Platform::MacOs)
    }

    /// Takes one event of the Windows low-level keyboard hook, read at time
    /// `now_ms`.
    pub fn handle_windows_event(&mut self, event: &WindowsKeyEvent, now_ms: u64) -> (outcome:
        Outcome)
        ensures
            final(self)@ == step_spec(
                old(self)@,
                windows_event_class(*event, old(self).paused),
                now_ms,
                Platform::Windows,
            ).engine,
            outcome@ == step_spec(
                old(self)@,
                windows_event_class(*event, old(self).paused),
                now_ms,
                Platform::Windows,
            ).outcome,
            final(self).mappings@ == old(self).mappings@,
            final(self).paused == old(self).paused,
    {
        let class = classify_windows_event(event, self.paused);
        self.step(class, now_ms, Platform::Windows)
    }
}

/// An event that carries the engine's stamp is never a transition of the
/// Hyper key nor a remap candidate, whatever its key code and whether or not
/// Hyper is held: it passes through, the engine stays as it was, and no
/// input is synthesized for it.
pub proof fn law_stamped_mac_event_is_never_reprocessed(
    engine: EngineView,
    event: MacKeyEvent,
    now: u64,
)
    requires
        event.user_data == INJECTED_EVENT_MAGIC,
    ensures
        ({
            let class = mac_event_class(event, engine.paused);
            let after = step_spec(engine, class, now, Platform::MacOs);
            &&& !(class is Hyper)
            &&& !(class is Key)
            &&& !(class is RawCapsLock)
            &&& after.engine == engine
            &&& after.outcome.verdict == Verdict::PassThrough
            &&& !is_tap_disabled(event.event_type) ==> after.outcome == pass_through()
        }),
{
}

/// An event that Windows marks as injected is never a transition of the
/// Hyper key nor a remap candidate: it passes through and changes nothing.
pub proof fn law_injected_windows_event_is_never_reprocessed(
    engine: EngineView,
    event: WindowsKeyEvent,
    now: u64,
)
    requires
        windows_event_is_injected(event),
    ensures
        windows_event_class(event, engine.paused) == EventClass::Bypass,
        step_spec(
            engine,
            windows_event_class(event, engine.paused),
            now,
            Platform::Windows,
        ) == (StepView { engine, outcome: pass_through() }),
{
}

/// While the engine is paused every key event passes through untouched.
pub proof fn law_paused_engine_intercepts_nothing(
    engine: EngineView,
    mac_event: MacKeyEvent,
    windows_event: WindowsKeyEvent,
    now: u64,
)
    requires
        engine.paused,
        !is_tap_disabled(mac_event.event_type),
    ensures
        step_spec(engine, mac_event_class(mac_event, true), now, Platform::MacOs) == (StepView {
            engine,
            outcome: pass_through(),
        }),
        step_spec(engine, windows_event_class(windows_event, true), now, Platform::Windows) == (
        StepView { engine, outcome: pass_through() }),
{
}

/// On macOS, pressing the released Hyper key and releasing it at most
/// [`CAPS_TAP_MAX_MS`](crate::caps::CAPS_TAP_MAX_MS) later, with no remap in
/// between, asks for exactly one toggle of the native lock.
pub proof fn law_tap_toggles_native_lock_once(engine: EngineView, pressed_at: u64, held_for: u64)
    requires
        !engine.caps.held(),
        held_for <= 200,
        pressed_at + held_for <= u64::MAX,
    ensures
        ({
            let down = step_spec(
                engine,
                EventClass::Hyper { edge: Edge::Down },
                pressed_at,
                Platform::MacOs,
            );
            let up = step_spec(
                down.engine,
                EventClass::Hyper { edge: Edge::Up },
                (pressed_at + held_for) as u64,
                Platform::MacOs,
            );
            &&& down.outcome == suppress(Seq::empty())
            &&& up.outcome == suppress(seq![EffectView::ToggleCapsLock])
            &&& !up.engine.caps.held()
        }),
{
}

/// One event as the engine takes it: its class and the time at which it is
/// read.
pub struct TimedEvent {
    pub class: EventClass,
    pub now: u64,
}

/// The engine after a run of events, taken one after the other.
pub open spec fn after_events(
    engine: EngineView,
    events: Seq<TimedEvent>,
    platform: Platform,
) -> EngineView
    decreases events.len(),
{
    if events.len() == 0 {
        engine
    } else {
        step_spec(
            after_events(engine, events.drop_last(), platform),
            events.last().class,
            events.last().now,
            platform,
        ).engine
    }
}

/// Whether none of the events is a release of the Hyper key.
pub open spec fn holds_no_release(events: Seq<TimedEvent>) -> bool {
    forall|i: int|
        0 <= i < events.len() ==> (#[trigger] events[i]).class != (EventClass::Hyper {
            edge: Edge::Up,
        })
}

/// A hold that was used as a modifier stays so until the Hyper key comes
/// up: whatever events come in between, repeated presses of the Hyper key,
/// further remaps, unbound keys, the engine's own output or a pause, the
/// tracker still holds the same press time and the remap mark.
pub proof fn lemma_marked_hold_lasts_until_release(
    engine: EngineView,
    events: Seq<TimedEvent>,
    platform: Platform,
)
    requires
        engine.caps.held(),
        engine.caps.did_remap_this_hold,
        holds_no_release(events),
    ensures
        after_events(engine, events, platform).caps == engine.caps,
        after_events(engine, events, platform).table == engine.table,
        after_events(engine, events, platform).paused == engine.paused,
    decreases events.len(),
{
    if events.len() > 0 {
        let earlier = events.drop_last();
        assert forall|i: int| 0 <= i < earlier.len() implies (#[trigger] earlier[i]).class != (
        EventClass::Hyper { edge: Edge::Up }) by {
            assert(earlier[i] == events[i]);
        }
        lemma_marked_hold_lasts_until_release(engine, earlier, platform);
        assert(events.last() == events[events.len() - 1]);
    }
}

/// Once a key was remapped during a hold, releasing the Hyper key never asks
/// for a toggle of the native lock: on either platform, after any duration,
/// and whatever events come between the remap and the release.
pub proof fn law_hold_with_remap_never_toggles(
    engine: EngineView,
    transition: KeyTransition,
    pressed_at: u64,
    remapped_at: u64,
    between: Seq<TimedEvent>,
    released_at: u64,
    platform: Platform,
)
    requires
        remap_of(
            step_spec(engine, EventClass::Hyper { edge: Edge::Down }, pressed_at, platform).engine,
            transition,
        ) is Some,
        holds_no_release(between),
    ensures
        ({
            let down = step_spec(
                engine,
                EventClass::Hyper { edge: Edge::Down },
                pressed_at,
                platform,
            );
            let remap = step_spec(
                down.engine,
                EventClass::Key { transition },
                remapped_at,
                platform,
            );
            let later = after_events(remap.engine, between, platform);
            let up = step_spec(
                later,
                EventClass::Hyper { edge: Edge::Up },
                released_at,
                platform,
            );
            &&& remap.outcome.verdict == Verdict::Suppress
            &&& later.caps.held()
            &&& later.caps.did_remap_this_hold
            &&& up.outcome == suppress(Seq::empty())
            &&& !up.engine.caps.held()
        }),
{
    let down = step_spec(engine, EventClass::Hyper { edge: Edge::Down }, pressed_at, platform);
    let remap = step_spec(down.engine, EventClass::Key { transition }, remapped_at, platform);
    lemma_marked_hold_lasts_until_release(remap.engine, between, platform);
}

/// A release of the Hyper key asks for no toggle whenever the tracker
/// carries the remap mark, in whatever way the engine came to that state.
pub proof fn law_release_of_marked_hold_never_toggles(
    engine: EngineView,
    released_at: u64,
    platform: Platform,
)
    requires
        engine.caps.did_remap_this_hold,
    ensures
        step_spec(engine, EventClass::Hyper { edge: Edge::Up }, released_at, platform).outcome
            == suppress(Seq::empty()),
{
}

/// A key with no binding passes through unsuppressed even while Hyper is
/// held, and leaves the hold unmarked.
pub proof fn law_unbound_key_passes_through(
    engine: EngineView,
    transition: KeyTransition,
    now: u64,
    platform: Platform,
)
    requires
        remap_of(engine, transition) is None,
    ensures
        step_spec(engine, EventClass::Key { transition }, now, platform) == (StepView {
            engine,
            outcome: pass_through(),
        }),
{
}

/// The Hyper tracker moves only as its rules say, whatever the event: the
/// press time is set by a press of the released key and by nothing else, it
/// is cleared by a release and by nothing else, the remap mark is set only
/// by a remap during a hold, and it is cleared only by a press of the
/// released key. Events never touch the table nor the pause switch.
pub proof fn law_tracker_moves_by_its_rules(
    engine: EngineView,
    class: EventClass,
    now: u64,
    platform: Platform,
)
    ensures
        ({
            let after = step_spec(engine, class, now, platform).engine;
            let fresh_press = class == (EventClass::Hyper { edge: Edge::Down })
                && !engine.caps.held();
            &&& after.table == engine.table
            &&& after.paused == engine.paused
            &&& after.caps.held() <==> after.caps.pressed_at() is Some
            &&& !engine.caps.held() && after.caps.held() ==> fresh_press
                && after.caps.pressed_at() == Some(now) && !after.caps.did_remap_this_hold
            &&& engine.caps.held() && after.caps.held() ==> after.caps.pressed_at()
                == engine.caps.pressed_at()
            &&& engine.caps.held() && !after.caps.held() ==> class == (EventClass::Hyper {
                edge: Edge::Up,
            })
            &&& !engine.caps.did_remap_this_hold && after.caps.did_remap_this_hold ==> class is Key
                && engine.caps.held() && after.caps.held()
            &&& engine.caps.did_remap_this_hold && !after.caps.did_remap_this_hold ==> fresh_press
        }),
{
}

} // verus!
