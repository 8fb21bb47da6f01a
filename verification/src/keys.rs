//! Key codes: the platform-independent logical codes that bindings are
//! written in, and the native codes of the two supported platforms.

use vstd::prelude::*;

verus! {

// Logical codes of the keys that carry a default binding.
pub const JS_H_KEYCODE: u16 = 72;

pub const JS_J_KEYCODE: u16 = 74;

pub const JS_K_KEYCODE: u16 = 75;

pub const JS_L_KEYCODE: u16 = 76;

pub const JS_P_KEYCODE: u16 = 80;

pub const JS_Y_KEYCODE: u16 = 89;

pub const JS_A_KEYCODE: u16 = 65;

pub const JS_E_KEYCODE: u16 = 69;

pub const JS_U_KEYCODE: u16 = 85;

pub const JS_D_KEYCODE: u16 = 68;

pub const JS_I_KEYCODE: u16 = 73;

pub const JS_N_KEYCODE: u16 = 78;

pub const JS_O_KEYCODE: u16 = 79;

/// Logical code of the comma key, bound by default to the ABC input source.
pub const DEFAULT_ABC_KEYCODE: u16 = 188;

/// Logical code of the period key, bound by default to the WeType input source.
pub const DEFAULT_WECHAT_KEYCODE: u16 = 190;

// Native macOS key codes.
pub const KC_CAPS_LOCK: u16 = 0x39;

/// F18, the spare function key that the physical CapsLock key is remapped to
/// at the HID layer so that it reports ordinary down and up transitions.
pub const KC_F18: u16 = 0x4F;

pub const KC_RETURN: u16 = 0x24;

/// The key labelled "delete" on Apple keyboards (backspace).
pub const KC_DELETE: u16 = 0x33;

pub const KC_LEFT: u16 = 0x7B;

pub const KC_RIGHT: u16 = 0x7C;

pub const KC_DOWN: u16 = 0x7D;

pub const KC_UP: u16 = 0x7E;

// Native Windows virtual-key codes.
pub const VK_BACK: u16 = 0x08;

pub const VK_RETURN: u16 = 0x0D;

pub const VK_CAPITAL: u16 = 0x14;

pub const VK_END: u16 = 0x23;

pub const VK_HOME: u16 = 0x24;

pub const VK_LEFT: u16 = 0x25;

pub const VK_UP: u16 = 0x26;

pub const VK_RIGHT: u16 = 0x27;

pub const VK_DOWN: u16 = 0x28;

pub const VK_LCONTROL: u16 = 0xA2;

/// Whether `key` is a logical code that a native key can translate to:
/// a digit, a letter, the comma or the period.
pub open spec fn is_logical_key(key: u16) -> bool {
    ||| 48 <= key <= 57
    ||| 65 <= key <= 90
    ||| key == 188
    ||| key == 190
}

/// The logical key of a native macOS key code, if the static table has one.
pub open spec fn mac_logical_key(mac_keycode: u16) -> Option<u16> {
    if mac_keycode == 0x00 {
        Some(65u16)
    } else if mac_keycode == 0x0B {
        Some(66u16)
    } else if mac_keycode == 0x08 {
        Some(67u16)
    } else if mac_keycode == 0x02 {
        Some(68u16)
    } else if mac_keycode == 0x0E {
        Some(69u16)
    } else if mac_keycode == 0x03 {
        Some(70u16)
    } else if mac_keycode == 0x05 {
        Some(71u16)
    } else if mac_keycode == 0x04 {
        Some(72u16)
    } else if mac_keycode == 0x22 {
        Some(73u16)
    } else if mac_keycode == 0x26 {
        Some(74u16)
    } else if mac_keycode == 0x28 {
        Some(75u16)
    } else if mac_keycode == 0x25 {
        Some(76u16)
    } else if mac_keycode == 0x2E {
        Some(77u16)
    } else if mac_keycode == 0x2D {
        Some(78u16)
    } else if mac_keycode == 0x1F {
        Some(79u16)
    } else if mac_keycode == 0x23 {
        Some(80u16)
    } else if mac_keycode == 0x0C {
        Some(81u16)
    } else if mac_keycode == 0x0F {
        Some(82u16)
    } else if mac_keycode == 0x01 {
        Some(83u16)
    } else if mac_keycode == 0x11 {
        Some(84u16)
    } else if mac_keycode == 0x20 {
        Some(85u16)
    } else if mac_keycode == 0x09 {
        Some(86u16)
    } else if mac_keycode == 0x0D {
        Some(87u16)
    } else if mac_keycode == 0x07 {
        Some(88u16)
    } else if mac_keycode == 0x10 {
        Some(89u16)
    } else if mac_keycode == 0x06 {
        Some(90u16)
    } else if mac_keycode == 0x1D {
        Some(48u16)
    } else if mac_keycode == 0x12 {
        Some(49u16)
    } else if mac_keycode == 0x13 {
        Some(50u16)
    } else if mac_keycode == 0x14 {
        Some(51u16)
    } else if mac_keycode == 0x15 {
        Some(52u16)
    } else if mac_keycode == 0x16 {
        Some(53u16)
    } else if mac_keycode == 0x17 {
        Some(54u16)
    } else if mac_keycode == 0x18 {
        Some(55u16)
    } else if mac_keycode == 0x19 {
        Some(56u16)
    } else if mac_keycode == 0x1A {
        Some(57u16)
    } else if mac_keycode == 0x2B {
        Some(188u16)
    } else if mac_keycode == 0x2F {
        Some(190u16)
    } else {
        None
    }
}

/// Translates a native macOS key code to its logical key. Codes outside the
/// table have none.
pub fn mac_keycode_to_js_keycode(mac_keycode: u16) -> (key: Option<u16>)
    ensures
        key == mac_logical_key(mac_keycode),
        key matches Some(k) ==> is_logical_key(k),
{
    match mac_keycode {
        0x00 => Some(65),
        0x0B => Some(66),
        0x08 => Some(67),
        0x02 => Some(68),
        0x0E => Some(69),
        0x03 => Some(70),
        0x05 => Some(71),
        0x04 => Some(72),
        0x22 => Some(73),
        0x26 => Some(74),
        0x28 => Some(75),
        0x25 => Some(76),
        0x2E => Some(77),
        0x2D => Some(78),
        0x1F => Some(79),
        0x23 => Some(80),
        0x0C => Some(81),
        0x0F => Some(82),
        0x01 => Some(83),
        0x11 => Some(84),
        0x20 => Some(85),
        0x09 => Some(86),
        0x0D => Some(87),
        0x07 => Some(88),
        0x10 => Some(89),
        0x06 => Some(90),
        0x1D => Some(48),
        0x12 => Some(49),
        0x13 => Some(50),
        0x14 => Some(51),
        0x15 => Some(52),
        0x16 => Some(53),
        0x17 => Some(54),
        0x18 => Some(55),
        0x19 => Some(56),
        0x1A => Some(57),
        0x2B => Some(188),
        0x2F => Some(190),
        _ => None,
    }
}

/// The logical key of a Windows virtual-key code: the virtual keys of the
/// digits, the letters, the comma and the period carry the logical code
/// itself; every other virtual key has none.
pub open spec fn windows_logical_key(vk: u16) -> Option<u16> {
    if is_logical_key(vk) {
        Some(vk)
    } else {
        None
    }
}

/// Translates a Windows virtual-key code to its logical key.
pub fn windows_vk_to_js_keycode(vk: u16) -> (key: Option<u16>)
    ensures
        key == windows_logical_key(vk),
        key matches Some(k) ==> is_logical_key(k),
{
    if (48 <= vk && vk <= 57) || (65 <= vk && vk <= 90) || vk == 188 || vk == 190 {
        Some(vk)
    } else {
        None
    }
}

/// Two native macOS codes never share a logical key.
pub proof fn law_mac_table_is_injective(a: u16, b: u16)
    requires
        mac_logical_key(a) is Some,
        mac_logical_key(a) == mac_logical_key(b),
    ensures
        a == b,
{
}

/// Neither the Hyper key nor the raw CapsLock key has a logical key, so
/// neither can ever be a remap candidate on macOS.
pub proof fn law_mac_hyper_codes_have_no_logical_key()
    ensures
        mac_logical_key(KC_F18) is None,
        mac_logical_key(KC_CAPS_LOCK) is None,
{
}

} // verus!
