use hypercapslock::engine::{LLKHF_INJECTED, WM_KEYDOWN, WM_KEYUP, WM_SYSKEYDOWN, WM_SYSKEYUP};
use hypercapslock::keys::{
    VK_BACK, VK_CAPITAL, VK_DOWN, VK_END, VK_HOME, VK_LCONTROL, VK_LEFT, VK_RETURN, VK_RIGHT,
    VK_UP,
};
use hypercapslock::windows_vk_to_js_keycode;
use windows::Win32::UI::Input::KeyboardAndMouse as native_keys;
use windows::Win32::UI::WindowsAndMessaging as native_messages;

#[test]
fn virtual_key_codes_agree_with_the_system_bindings() {
    assert_eq!(VK_BACK, native_keys::VK_BACK.0);
    assert_eq!(VK_RETURN, native_keys::VK_RETURN.0);
    assert_eq!(VK_CAPITAL, native_keys::VK_CAPITAL.0);
    assert_eq!(VK_END, native_keys::VK_END.0);
    assert_eq!(VK_HOME, native_keys::VK_HOME.0);
    assert_eq!(VK_LEFT, native_keys::VK_LEFT.0);
    assert_eq!(VK_UP, native_keys::VK_UP.0);
    assert_eq!(VK_RIGHT, native_keys::VK_RIGHT.0);
    assert_eq!(VK_DOWN, native_keys::VK_DOWN.0);
    assert_eq!(VK_LCONTROL, native_keys::VK_LCONTROL.0);
}

#[test]
fn keyboard_messages_and_flags_agree_with_the_system_bindings() {
    assert_eq!(WM_KEYDOWN, native_messages::WM_KEYDOWN);
    assert_eq!(WM_KEYUP, native_messages::WM_KEYUP);
    assert_eq!(WM_SYSKEYDOWN, native_messages::WM_SYSKEYDOWN);
    assert_eq!(WM_SYSKEYUP, native_messages::WM_SYSKEYUP);
    assert_eq!(LLKHF_INJECTED, native_messages::LLKHF_INJECTED.0);
}

#[test]
fn virtual_keys_of_bound_letters_carry_their_logical_code() {
    let letters = [
        (native_keys::VK_H, 72u16),
        (native_keys::VK_J, 74),
        (native_keys::VK_K, 75),
        (native_keys::VK_L, 76),
        (native_keys::VK_P, 80),
        (native_keys::VK_Y, 89),
        (native_keys::VK_A, 65),
        (native_keys::VK_E, 69),
        (native_keys::VK_U, 85),
        (native_keys::VK_D, 68),
        (native_keys::VK_I, 73),
        (native_keys::VK_N, 78),
        (native_keys::VK_O, 79),
        (native_keys::VK_0, 48),
        (native_keys::VK_9, 57),
        (native_keys::VK_OEM_COMMA, 188),
        (native_keys::VK_OEM_PERIOD, 190),
    ];
    for (vk, logical) in letters {
        assert_eq!(windows_vk_to_js_keycode(vk.0), Some(logical));
    }
    assert_eq!(windows_vk_to_js_keycode(native_keys::VK_CAPITAL.0), None);
    assert_eq!(windows_vk_to_js_keycode(native_keys::VK_SHIFT.0), None);
}
