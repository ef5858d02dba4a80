use chip8_frontend::keys::{gdk_key_decode, KeyState};

#[test]
fn fresh_state_holds_no_key() {
    let keys = KeyState::new();
    for k in 0u8..=255 {
        assert!(!keys.is_pressed(k));
    }
    assert_eq!(keys.any_pressed(), None);
}

#[test]
fn pressed_key_is_reported_until_released() {
    let mut keys = KeyState::new();
    keys.set_pressed(0xA);
    assert!(keys.is_pressed(0xA));
    assert!(!keys.is_pressed(0x9));
    assert!(!keys.is_pressed(0xB));
    keys.set_released(0xA);
    assert!(!keys.is_pressed(0xA));
    assert_eq!(keys.any_pressed(), None);
}

#[test]
fn pressing_twice_equals_pressing_once() {
    let mut keys = KeyState::new();
    keys.set_pressed(3);
    keys.set_pressed(3);
    assert!(keys.is_pressed(3));
    keys.set_released(3);
    assert!(!keys.is_pressed(3));
}

#[test]
fn releasing_a_free_key_leaves_it_free() {
    let mut keys = KeyState::new();
    keys.set_released(7);
    assert!(!keys.is_pressed(7));
    keys.set_pressed(2);
    keys.set_released(7);
    keys.set_released(7);
    assert!(!keys.is_pressed(7));
    assert!(keys.is_pressed(2));
}

#[test]
fn last_call_about_a_key_decides() {
    let mut keys = KeyState::new();
    keys.set_pressed(5);
    keys.set_released(5);
    keys.set_pressed(5);
    keys.set_pressed(1);
    keys.set_released(1);
    assert!(keys.is_pressed(5));
    assert!(!keys.is_pressed(1));
}

#[test]
fn any_pressed_gives_lowest_of_several() {
    let mut keys = KeyState::new();
    keys.set_pressed(0xC);
    keys.set_pressed(0x4);
    keys.set_pressed(0x9);
    assert_eq!(keys.any_pressed(), Some(0x4));
    keys.set_released(0x4);
    assert_eq!(keys.any_pressed(), Some(0x9));
    keys.set_released(0x9);
    assert_eq!(keys.any_pressed(), Some(0xC));
    keys.set_released(0xC);
    assert_eq!(keys.any_pressed(), None);
}

#[test]
fn any_pressed_sees_first_and_last_key() {
    let mut keys = KeyState::new();
    keys.set_pressed(0xF);
    assert_eq!(keys.any_pressed(), Some(0xF));
    assert!(keys.is_pressed(0xF));
    keys.set_pressed(0x0);
    assert_eq!(keys.any_pressed(), Some(0x0));
}

#[test]
fn out_of_range_key_is_never_held() {
    let mut keys = KeyState::new();
    for k in 0u8..16 {
        keys.set_pressed(k);
    }
    for k in 0u8..16 {
        assert!(keys.is_pressed(k));
    }
    for k in 16u8..=255 {
        assert!(!keys.is_pressed(k));
    }
}

#[test]
fn decode_follows_the_keypad_layout() {
    let table: [(u32, u8); 16] = [
        (0x31, 0x1), (0x32, 0x2), (0x33, 0x3), (0x34, 0xC),
        (0x71, 0x4), (0x77, 0x5), (0x65, 0x6), (0x72, 0xD),
        (0x61, 0x7), (0x73, 0x8), (0x64, 0x9), (0x66, 0xE),
        (0x7A, 0xA), (0x79, 0x0), (0x63, 0xB), (0x76, 0xF),
    ];
    for (raw, key) in table {
        assert_eq!(gdk_key_decode(raw), Some(key));
    }
}

#[test]
fn decode_rejects_every_other_code() {
    let mapped: [u32; 16] = [
        0x31, 0x32, 0x33, 0x34, 0x71, 0x77, 0x65, 0x72,
        0x61, 0x73, 0x64, 0x66, 0x7A, 0x79, 0x63, 0x76,
    ];
    for raw in 0u32..0x400 {
        if !mapped.contains(&raw) {
            assert_eq!(gdk_key_decode(raw), None);
        }
    }
    assert_eq!(gdk_key_decode(0xFF0D), None);
    assert_eq!(gdk_key_decode(u32::MAX), None);
}

#[test]
fn key_events_translate_raw_codes() {
    let mut keys = KeyState::new();
    keys.on_key_down(0x71);
    assert!(keys.is_pressed(4));
    assert_eq!(keys.any_pressed(), Some(4));
    keys.on_key_down(0x79);
    assert_eq!(keys.any_pressed(), Some(0));
    keys.on_key_up(0x79);
    keys.on_key_up(0x71);
    assert_eq!(keys.any_pressed(), None);
}

#[test]
fn unmapped_key_events_are_ignored() {
    let mut keys = KeyState::new();
    keys.on_key_down(0x20);
    assert_eq!(keys.any_pressed(), None);
    keys.on_key_down(0x76);
    keys.on_key_up(0x20);
    keys.on_key_up(0xFFFF);
    assert!(keys.is_pressed(0xF));
    assert_eq!(keys.any_pressed(), Some(0xF));
}

#[test]
fn mask_has_one_bit_per_held_key() {
    let mut keys = KeyState::new();
    assert_eq!(keys.mask(), 0);
    keys.set_pressed(0);
    keys.set_pressed(4);
    keys.set_pressed(0xF);
    assert_eq!(keys.mask(), 0x8011);
    keys.set_released(4);
    assert_eq!(keys.mask(), 0x8001);
    keys.set_released(0);
    keys.set_released(0xF);
    assert_eq!(keys.mask(), 0);
}
