use hypercapslock::clock::millis_of_clock;
use hypercapslock::{mac_keycode_to_js_keycode, now_millis, windows_vk_to_js_keycode};

#[test]
fn mac_table_translates_letters() {
    let letters = [
        (0x00u16, 'A'), (0x0B, 'B'), (0x08, 'C'), (0x02, 'D'), (0x0E, 'E'), (0x03, 'F'),
        (0x05, 'G'), (0x04, 'H'), (0x22, 'I'), (0x26, 'J'), (0x28, 'K'), (0x25, 'L'),
        (0x2E, 'M'), (0x2D, 'N'), (0x1F, 'O'), (0x23, 'P'), (0x0C, 'Q'), (0x0F, 'R'),
        (0x01, 'S'), (0x11, 'T'), (0x20, 'U'), (0x09, 'V'), (0x0D, 'W'), (0x07, 'X'),
        (0x10, 'Y'), (0x06, 'Z'),
    ];
    for (code, letter) in letters {
        assert_eq!(mac_keycode_to_js_keycode(code), Some(letter as u16));
    }
}

#[test]
fn mac_table_translates_digits_and_punctuation() {
    let digits = [
        (0x1Du16, 48u16), (0x12, 49), (0x13, 50), (0x14, 51), (0x15, 52), (0x16, 53),
        (0x17, 54), (0x18, 55), (0x19, 56), (0x1A, 57),
    ];
    for (code, key) in digits {
        assert_eq!(mac_keycode_to_js_keycode(code), Some(key));
    }
    assert_eq!(mac_keycode_to_js_keycode(0x2B), Some(188));
    assert_eq!(mac_keycode_to_js_keycode(0x2F), Some(190));
}

#[test]
fn mac_table_has_thirty_eight_entries_and_no_hyper_key() {
    let known = (0..=u16::MAX).filter(|code| mac_keycode_to_js_keycode(*code).is_some()).count();
    assert_eq!(known, 38);
    assert_eq!(mac_keycode_to_js_keycode(0x4F), None);
    assert_eq!(mac_keycode_to_js_keycode(0x39), None);
    assert_eq!(mac_keycode_to_js_keycode(0x31), None);
    assert_eq!(mac_keycode_to_js_keycode(0x7B), None);
    assert_eq!(mac_keycode_to_js_keycode(0xFFFF), None);
}

#[test]
fn windows_virtual_keys_of_digits_letters_comma_period_are_logical() {
    for vk in 0..=u16::MAX {
        let logical = (48..=57).contains(&vk) || (65..=90).contains(&vk) || vk == 188 || vk == 190;
        assert_eq!(windows_vk_to_js_keycode(vk), if logical { Some(vk) } else { None });
    }
    assert_eq!(windows_vk_to_js_keycode(0x14), None);
}

#[test]
fn clock_reads_a_time_after_the_year_2020() {
    let first = now_millis();
    assert!(first > 1_577_836_800_000);
    assert!(now_millis() >= first);
}

#[test]
fn clock_answer_is_cut_to_64_bits_and_zero_before_the_epoch() {
    assert_eq!(millis_of_clock(None), 0);
    assert_eq!(millis_of_clock(Some(0)), 0);
    assert_eq!(millis_of_clock(Some(1_700_000_000_123)), 1_700_000_000_123);
    assert_eq!(millis_of_clock(Some(u64::MAX as u128)), u64::MAX);
    assert_eq!(millis_of_clock(Some(u64::MAX as u128 + 1)), 0);
    assert_eq!(millis_of_clock(Some(0x1_0000_0000_0000_0007)), 7);
    assert_eq!(millis_of_clock(Some(u128::MAX)), u64::MAX);
}
