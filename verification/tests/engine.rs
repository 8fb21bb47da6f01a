use hypercapslock::{
    classify_mac_event, classify_windows_event, default_action_mappings, ActionConfig,
    ActionMappingEntry, CapsState, DirectionalActionKind, Effect, Engine, EventClass, HoldState,
    KeyTransition, MacKeyEvent, Outcome, Verdict, WindowsKeyEvent, INJECTED_EVENT_MAGIC,
};

const F18: i64 = 0x4F;
const MAC_H: i64 = 0x04;
const MAC_D: i64 = 0x02;
const MAC_N: i64 = 0x2D;
const MAC_P: i64 = 0x23;
const MAC_Z: i64 = 0x06;
const KEY_DOWN: u32 = 10;
const KEY_UP: u32 = 11;
const FLAGS_CHANGED: u32 = 12;
const SHIFT: u64 = 0x0002_0000;
const ALT: u64 = 0x0008_0000;

fn mac(event_type: u32, keycode: i64, flags: u64) -> MacKeyEvent {
    MacKeyEvent { event_type, keycode, flags, user_data: 0 }
}

fn win(message: u32, vk_code: u32, shift_down: bool) -> WindowsKeyEvent {
    WindowsKeyEvent { code: 0, message, vk_code, flags: 0, shift_down }
}

fn key(code: u16, down: bool, flags: u64) -> Effect {
    Effect::Key { code, down, flags, marker: INJECTED_EVENT_MAGIC }
}

fn pass() -> Outcome {
    Outcome { verdict: Verdict::PassThrough, effects: vec![] }
}

fn suppress(effects: Vec<Effect>) -> Outcome {
    Outcome { verdict: Verdict::Suppress, effects }
}

fn engine() -> Engine {
    Engine::new(default_action_mappings())
}

#[test]
fn mac_tap_of_exactly_200_ms_toggles_once() {
    let mut e = engine();
    assert_eq!(e.handle_mac_event(&mac(KEY_DOWN, F18, 0), 1000), suppress(vec![]));
    assert_eq!(e.caps.hold, HoldState::Held { pressed_at: 1000 });
    assert_eq!(
        e.handle_mac_event(&mac(KEY_UP, F18, 0), 1200),
        suppress(vec![Effect::ToggleCapsLock])
    );
    assert_eq!(e.caps.hold, HoldState::Released);
}

#[test]
fn mac_hold_of_201_ms_does_not_toggle() {
    let mut e = engine();
    e.handle_mac_event(&mac(KEY_DOWN, F18, 0), 1000);
    assert_eq!(e.handle_mac_event(&mac(KEY_UP, F18, 0), 1201), suppress(vec![]));
}

#[test]
fn mac_release_before_press_time_counts_as_zero_elapsed() {
    let mut e = engine();
    e.handle_mac_event(&mac(KEY_DOWN, F18, 0), 5000);
    assert_eq!(
        e.handle_mac_event(&mac(KEY_UP, F18, 0), 10),
        suppress(vec![Effect::ToggleCapsLock])
    );
}

#[test]
fn mac_release_without_press_does_not_toggle() {
    let mut e = engine();
    assert_eq!(e.handle_mac_event(&mac(KEY_UP, F18, 0), 10), suppress(vec![]));
}

#[test]
fn mac_hold_with_remap_never_toggles() {
    let mut e = engine();
    e.handle_mac_event(&mac(KEY_DOWN, F18, 0), 1000);
    assert_eq!(
        e.handle_mac_event(&mac(KEY_DOWN, MAC_H, 0), 1010),
        suppress(vec![key(0x7B, true, 0)])
    );
    assert!(e.caps.did_remap_this_hold);
    assert_eq!(
        e.handle_mac_event(&mac(KEY_UP, MAC_H, 0), 1020),
        suppress(vec![key(0x7B, false, 0)])
    );
    assert_eq!(e.handle_mac_event(&mac(KEY_UP, F18, 0), 1030), suppress(vec![]));
}

#[test]
fn mac_repeated_press_keeps_press_time_and_remap_mark() {
    let mut e = engine();
    e.handle_mac_event(&mac(KEY_DOWN, F18, 0), 1000);
    e.handle_mac_event(&mac(KEY_DOWN, MAC_H, 0), 1010);
    e.handle_mac_event(&mac(KEY_DOWN, F18, 0), 1500);
    assert_eq!(
        e.caps,
        CapsState { hold: HoldState::Held { pressed_at: 1000 }, did_remap_this_hold: true }
    );
}

#[test]
fn mac_new_press_clears_remap_mark() {
    let mut e = engine();
    e.handle_mac_event(&mac(KEY_DOWN, F18, 0), 1000);
    e.handle_mac_event(&mac(KEY_DOWN, MAC_H, 0), 1010);
    e.handle_mac_event(&mac(KEY_UP, F18, 0), 1020);
    assert!(e.caps.did_remap_this_hold);
    e.handle_mac_event(&mac(KEY_DOWN, F18, 0), 2000);
    assert!(!e.caps.did_remap_this_hold);
    assert_eq!(
        e.handle_mac_event(&mac(KEY_UP, F18, 0), 2100),
        suppress(vec![Effect::ToggleCapsLock])
    );
}

#[test]
fn mac_unbound_key_passes_through_while_held() {
    let mut e = engine();
    e.handle_mac_event(&mac(KEY_DOWN, F18, 0), 1000);
    assert_eq!(e.handle_mac_event(&mac(KEY_DOWN, MAC_Z, 0), 1010), pass());
    assert_eq!(e.handle_mac_event(&mac(KEY_DOWN, 0x31, 0), 1010), pass());
    assert!(!e.caps.did_remap_this_hold);
    assert_eq!(
        e.handle_mac_event(&mac(KEY_UP, F18, 0), 1100),
        suppress(vec![Effect::ToggleCapsLock])
    );
}

#[test]
fn mac_bound_key_passes_through_while_released() {
    let mut e = engine();
    assert_eq!(e.handle_mac_event(&mac(KEY_DOWN, MAC_H, 0), 1), pass());
    assert!(!e.caps.did_remap_this_hold);
}

#[test]
fn stamped_event_is_never_reprocessed_even_under_the_hyper_code() {
    let mut e = engine();
    let stamped = MacKeyEvent {
        event_type: KEY_DOWN,
        keycode: F18,
        flags: 0,
        user_data: INJECTED_EVENT_MAGIC,
    };
    assert_eq!(classify_mac_event(&stamped, false), EventClass::Bypass);
    assert_eq!(e.handle_mac_event(&stamped, 1000), pass());
    assert_eq!(e.caps, CapsState { hold: HoldState::Released, did_remap_this_hold: false });
    e.handle_mac_event(&mac(KEY_DOWN, F18, 0), 1000);
    let stamped_h = MacKeyEvent {
        event_type: KEY_DOWN,
        keycode: MAC_H,
        flags: 0,
        user_data: INJECTED_EVENT_MAGIC,
    };
    assert_eq!(e.handle_mac_event(&stamped_h, 1010), pass());
    assert!(!e.caps.did_remap_this_hold);
    let stamped_up = MacKeyEvent {
        event_type: KEY_UP,
        keycode: F18,
        flags: 0,
        user_data: 0x4756_4C4E,
    };
    assert_eq!(e.handle_mac_event(&stamped_up, 1020), pass());
    assert_eq!(e.caps.hold, HoldState::Held { pressed_at: 1000 });
}

#[test]
fn paused_engine_passes_everything_and_keeps_its_state() {
    let mut e = engine();
    e.handle_mac_event(&mac(KEY_DOWN, F18, 0), 1000);
    e.set_paused(true);
    assert_eq!(e.handle_mac_event(&mac(KEY_DOWN, MAC_H, 0), 1010), pass());
    assert_eq!(e.handle_mac_event(&mac(KEY_UP, F18, 0), 1020), pass());
    assert_eq!(e.caps.hold, HoldState::Held { pressed_at: 1000 });
    e.set_paused(false);
    assert_eq!(
        e.handle_mac_event(&mac(KEY_DOWN, MAC_H, 0), 1030),
        suppress(vec![key(0x7B, true, 0)])
    );
}

#[test]
fn disabled_tap_asks_for_rearm_and_passes() {
    let mut e = engine();
    let timeout = mac(0xFFFF_FFFE, 0, 0);
    let user_input = mac(0xFFFF_FFFF, 0, 0);
    let expected = Outcome { verdict: Verdict::PassThrough, effects: vec![Effect::RearmEventTap] };
    assert_eq!(e.handle_mac_event(&timeout, 1), expected);
    assert_eq!(e.handle_mac_event(&user_input, 1), expected);
    e.set_paused(true);
    assert_eq!(e.handle_mac_event(&timeout, 1), expected);
}

#[test]
fn rearm_is_skipped_without_a_port() {
    assert!(!hypercapslock::engine::reenable_event_tap(0));
    assert!(hypercapslock::engine::reenable_event_tap(0x1234));
}

#[test]
fn raw_capslock_flags_change_is_swallowed() {
    let mut e = engine();
    assert_eq!(classify_mac_event(&mac(FLAGS_CHANGED, 0x39, 0), false), EventClass::RawCapsLock);
    assert_eq!(e.handle_mac_event(&mac(FLAGS_CHANGED, 0x39, 0), 1), suppress(vec![]));
    assert_eq!(e.caps.hold, HoldState::Released);
    assert_eq!(e.handle_mac_event(&mac(FLAGS_CHANGED, F18, 0), 1), suppress(vec![]));
    assert_eq!(e.caps.hold, HoldState::Released);
}

#[test]
fn mac_classification_normalizes_the_transition() {
    let class = classify_mac_event(&mac(KEY_DOWN, MAC_H, SHIFT | 0x100 | ALT), false);
    assert_eq!(
        class,
        EventClass::Key {
            transition: KeyTransition {
                key: Some(72),
                native_code: 0x04,
                down: true,
                modifiers: SHIFT | ALT,
            },
        }
    );
    let class = classify_mac_event(&mac(KEY_UP, 0x31, 0), false);
    assert_eq!(
        class,
        EventClass::Key {
            transition: KeyTransition { key: None, native_code: 0x31, down: false, modifiers: 0 },
        }
    );
}

#[test]
fn mac_shift_with_directional_falls_back_and_carries_shift() {
    let mut e = engine();
    e.handle_mac_event(&mac(KEY_DOWN, F18, 0), 1000);
    assert_eq!(
        e.handle_mac_event(&mac(KEY_DOWN, MAC_H, SHIFT | 0x100), 1010),
        suppress(vec![key(0x7B, true, SHIFT)])
    );
    assert_eq!(
        e.handle_mac_event(&mac(KEY_DOWN, MAC_P, SHIFT), 1010),
        suppress(vec![key(0x7C, true, SHIFT | ALT)])
    );
}

#[test]
fn mac_jump_down_taps_ten_times_on_press_and_nothing_on_release() {
    let mut e = engine();
    e.handle_mac_event(&mac(KEY_DOWN, F18, 0), 1000);
    let pressed = e.handle_mac_event(&mac(KEY_DOWN, MAC_D, 0), 1010);
    let mut expected = Vec::new();
    for _ in 0..10 {
        expected.push(key(0x7D, true, 0));
        expected.push(key(0x7D, false, 0));
    }
    assert_eq!(pressed, suppress(expected));
    assert_eq!(e.handle_mac_event(&mac(KEY_UP, MAC_D, 0), 1020), suppress(vec![]));
}

#[test]
fn mac_insert_quotes_is_six_quotes_then_three_left_taps() {
    let mut e = engine();
    e.handle_mac_event(&mac(KEY_DOWN, F18, 0), 1000);
    let pressed = e.handle_mac_event(&mac(KEY_DOWN, MAC_N, SHIFT), 1010);
    let mut expected = Vec::new();
    for _ in 0..6 {
        expected.push(Effect::Text { ch: '"', marker: INJECTED_EVENT_MAGIC });
    }
    for _ in 0..3 {
        expected.push(key(0x7B, true, 0));
        expected.push(key(0x7B, false, 0));
    }
    assert_eq!(pressed, suppress(expected));
    assert_eq!(e.handle_mac_event(&mac(KEY_UP, MAC_N, 0), 1020), suppress(vec![]));
}

#[test]
fn mac_command_fires_only_with_shift_and_only_on_press() {
    let mut table = default_action_mappings();
    table.push(ActionMappingEntry {
        key: 77,
        with_shift: true,
        action: ActionConfig::Command { command: "open -a Calculator".to_string() },
    });
    let mut e = Engine::new(table);
    e.handle_mac_event(&mac(KEY_DOWN, F18, 0), 1000);
    assert_eq!(e.handle_mac_event(&mac(KEY_DOWN, 0x2E, 0), 1001), pass());
    assert_eq!(
        e.handle_mac_event(&mac(KEY_DOWN, 0x2E, SHIFT), 1002),
        suppress(vec![Effect::RunCommand { command: "open -a Calculator".to_string() }])
    );
    assert_eq!(e.handle_mac_event(&mac(KEY_UP, 0x2E, SHIFT), 1003), suppress(vec![]));
}

#[test]
fn windows_release_without_remap_toggles_whatever_the_duration() {
    let mut e = engine();
    assert_eq!(e.handle_windows_event(&win(0x100, 0x14, false), 0), suppress(vec![]));
    assert_eq!(
        e.handle_windows_event(&win(0x101, 0x14, false), 60_000),
        suppress(vec![Effect::ToggleCapsLock])
    );
}

#[test]
fn windows_release_without_press_still_toggles() {
    let mut e = engine();
    assert_eq!(
        e.handle_windows_event(&win(0x101, 0x14, false), 5),
        suppress(vec![Effect::ToggleCapsLock])
    );
}

#[test]
fn windows_hold_with_remap_never_toggles() {
    let mut e = engine();
    e.handle_windows_event(&win(0x100, 0x14, false), 0);
    assert_eq!(
        e.handle_windows_event(&win(0x100, 72, false), 1),
        suppress(vec![key(0x25, true, 0)])
    );
    assert_eq!(
        e.handle_windows_event(&win(0x101, 72, false), 2),
        suppress(vec![key(0x25, false, 0)])
    );
    assert_eq!(e.handle_windows_event(&win(0x101, 0x14, false), 3), suppress(vec![]));
}

#[test]
fn windows_repeated_press_keeps_press_time_and_remap_mark() {
    let mut e = engine();
    e.handle_windows_event(&win(0x100, 0x14, false), 0);
    e.handle_windows_event(&win(0x100, 72, false), 1);
    assert!(e.caps.did_remap_this_hold);
    assert_eq!(e.handle_windows_event(&win(0x100, 0x14, false), 2), suppress(vec![]));
    assert_eq!(
        e.caps,
        CapsState { hold: HoldState::Held { pressed_at: 0 }, did_remap_this_hold: true }
    );
    assert_eq!(e.handle_windows_event(&win(0x101, 0x14, false), 3), suppress(vec![]));
    assert_eq!(e.caps.hold, HoldState::Released);
}

#[test]
fn windows_repeated_press_without_remap_still_toggles_once() {
    let mut e = engine();
    e.handle_windows_event(&win(0x100, 0x14, false), 0);
    e.handle_windows_event(&win(0x100, 0x14, false), 30);
    e.handle_windows_event(&win(0x100, 0x14, false), 60);
    assert_eq!(
        e.caps,
        CapsState { hold: HoldState::Held { pressed_at: 0 }, did_remap_this_hold: false }
    );
    assert_eq!(
        e.handle_windows_event(&win(0x101, 0x14, false), 90),
        suppress(vec![Effect::ToggleCapsLock])
    );
}

#[test]
fn windows_new_press_clears_remap_mark() {
    let mut e = engine();
    e.handle_windows_event(&win(0x100, 0x14, false), 0);
    e.handle_windows_event(&win(0x100, 72, false), 1);
    e.handle_windows_event(&win(0x101, 0x14, false), 2);
    assert!(e.caps.did_remap_this_hold);
    e.handle_windows_event(&win(0x100, 0x14, false), 10);
    assert!(!e.caps.did_remap_this_hold);
    assert_eq!(
        e.handle_windows_event(&win(0x101, 0x14, false), 11),
        suppress(vec![Effect::ToggleCapsLock])
    );
}

#[test]
fn hold_with_remap_never_toggles_whatever_comes_before_the_release() {
    let mut w = engine();
    w.handle_windows_event(&win(0x100, 0x14, false), 0);
    w.handle_windows_event(&win(0x100, 72, false), 1);
    w.handle_windows_event(&win(0x101, 72, false), 2);
    w.handle_windows_event(&win(0x100, 0x14, false), 3);
    w.handle_windows_event(&win(0x100, 0x5A, false), 4);
    w.handle_windows_event(&win(0x100, 0x14, false), 5);
    w.set_paused(true);
    w.handle_windows_event(&win(0x100, 0x14, false), 6);
    w.set_paused(false);
    let injected =
        WindowsKeyEvent { code: 0, message: 0x100, vk_code: 0x14, flags: 0x10, shift_down: false };
    w.handle_windows_event(&injected, 7);
    w.handle_windows_event(&win(0x100, 74, true), 8);
    w.handle_windows_event(&win(0x100, 0x14, false), 9);
    assert_eq!(w.handle_windows_event(&win(0x101, 0x14, false), 10), suppress(vec![]));

    let mut m = engine();
    m.handle_mac_event(&mac(KEY_DOWN, F18, 0), 1000);
    m.handle_mac_event(&mac(KEY_DOWN, MAC_H, 0), 1001);
    m.handle_mac_event(&mac(KEY_DOWN, F18, 0), 1002);
    m.handle_mac_event(&mac(FLAGS_CHANGED, F18, 0), 1003);
    m.handle_mac_event(&mac(KEY_DOWN, MAC_Z, 0), 1004);
    m.handle_mac_event(&mac(FLAGS_CHANGED, 0x39, 0), 1005);
    m.handle_mac_event(&mac(0xFFFF_FFFE, 0, 0), 1006);
    m.handle_mac_event(&mac(KEY_DOWN, F18, 0), 1007);
    assert_eq!(m.handle_mac_event(&mac(KEY_UP, F18, 0), 1008), suppress(vec![]));
}

#[test]
fn windows_injected_event_is_never_reprocessed() {
    let mut e = engine();
    let injected_caps =
        WindowsKeyEvent { code: 0, message: 0x100, vk_code: 0x14, flags: 0x10, shift_down: false };
    assert_eq!(classify_windows_event(&injected_caps, false), EventClass::Bypass);
    assert_eq!(e.handle_windows_event(&injected_caps, 0), pass());
    assert_eq!(e.caps.hold, HoldState::Released);
    e.handle_windows_event(&win(0x100, 0x14, false), 0);
    let injected_h =
        WindowsKeyEvent { code: 0, message: 0x100, vk_code: 72, flags: 0x90, shift_down: false };
    assert_eq!(e.handle_windows_event(&injected_h, 1), pass());
    assert!(!e.caps.did_remap_this_hold);
}

#[test]
fn windows_negative_code_paused_and_other_messages_pass() {
    let mut e = engine();
    e.handle_windows_event(&win(0x100, 0x14, false), 0);
    let skipped =
        WindowsKeyEvent { code: -1, message: 0x100, vk_code: 72, flags: 0, shift_down: false };
    assert_eq!(e.handle_windows_event(&skipped, 1), pass());
    assert_eq!(e.handle_windows_event(&win(0x102, 72, false), 1), pass());
    e.set_paused(true);
    assert_eq!(e.handle_windows_event(&win(0x100, 72, false), 1), pass());
    assert_eq!(e.handle_windows_event(&win(0x101, 0x14, false), 1), pass());
    assert!(e.caps.hold != HoldState::Released);
}

#[test]
fn windows_syskey_messages_count_as_down_and_up() {
    let mut e = engine();
    assert_eq!(e.handle_windows_event(&win(0x104, 0x14, false), 0), suppress(vec![]));
    assert_eq!(
        e.handle_windows_event(&win(0x104, 76, false), 1),
        suppress(vec![key(0x27, true, 0)])
    );
    assert_eq!(
        e.handle_windows_event(&win(0x105, 76, false), 1),
        suppress(vec![key(0x27, false, 0)])
    );
}

#[test]
fn windows_word_motion_wraps_the_arrow_in_control() {
    let mut e = engine();
    e.handle_windows_event(&win(0x100, 0x14, false), 0);
    assert_eq!(
        e.handle_windows_event(&win(0x100, 80, false), 1),
        suppress(vec![key(0xA2, true, 0), key(0x27, true, 0)])
    );
    assert_eq!(
        e.handle_windows_event(&win(0x101, 80, false), 2),
        suppress(vec![key(0x27, false, 0), key(0xA2, false, 0)])
    );
    assert_eq!(
        e.handle_windows_event(&win(0x100, 89, true), 3),
        suppress(vec![key(0xA2, true, 0), key(0x25, true, 0)])
    );
}

#[test]
fn windows_shift_command_wins_over_unshifted_binding() {
    let mut table = default_action_mappings();
    table.push(ActionMappingEntry {
        key: 72,
        with_shift: true,
        action: ActionConfig::Command { command: "notepad".to_string() },
    });
    let mut e = Engine::new(table);
    e.handle_windows_event(&win(0x100, 0x14, false), 0);
    assert_eq!(
        e.handle_windows_event(&win(0x100, 72, true), 1),
        suppress(vec![Effect::RunCommand { command: "notepad".to_string() }])
    );
    assert_eq!(
        e.handle_windows_event(&win(0x100, 72, false), 2),
        suppress(vec![key(0x25, true, 0)])
    );
}

#[test]
fn events_do_not_touch_the_table() {
    let mut e = Engine::new(vec![ActionMappingEntry {
        key: 72,
        with_shift: false,
        action: ActionConfig::Directional { action: DirectionalActionKind::Left },
    }]);
    e.handle_mac_event(&mac(KEY_DOWN, F18, 0), 1);
    e.handle_mac_event(&mac(KEY_DOWN, MAC_H, 0), 2);
    e.handle_mac_event(&mac(KEY_UP, F18, 0), 3);
    assert_eq!(
        e.mappings,
        vec![ActionMappingEntry {
            key: 72,
            with_shift: false,
            action: ActionConfig::Directional { action: DirectionalActionKind::Left },
        }]
    );
    assert!(!e.paused);
}
