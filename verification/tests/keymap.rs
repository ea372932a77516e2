use rusty_mechanical_keyboard::keymap::get_sound_key_for_key;
use rusty_mechanical_keyboard::keymap::PhysicalKey;

#[test]
fn top_row_letters_have_their_own_sound_keys() {
    assert_eq!(get_sound_key_for_key(&PhysicalKey::KeyQ), "1");
    assert_eq!(get_sound_key_for_key(&PhysicalKey::KeyW), "2");
    assert_eq!(get_sound_key_for_key(&PhysicalKey::KeyE), "3");
    assert_eq!(get_sound_key_for_key(&PhysicalKey::KeyR), "5");
    assert_eq!(get_sound_key_for_key(&PhysicalKey::KeyT), "6");
    assert_eq!(get_sound_key_for_key(&PhysicalKey::KeyY), "7");
    assert_eq!(get_sound_key_for_key(&PhysicalKey::KeyU), "8");
    assert_eq!(get_sound_key_for_key(&PhysicalKey::KeyI), "9");
    assert_eq!(get_sound_key_for_key(&PhysicalKey::KeyO), "10");
    assert_eq!(get_sound_key_for_key(&PhysicalKey::KeyP), "11");
}

#[test]
fn home_row_letters_have_their_own_sound_keys() {
    assert_eq!(get_sound_key_for_key(&PhysicalKey::KeyA), "30");
    assert_eq!(get_sound_key_for_key(&PhysicalKey::KeyS), "31");
    assert_eq!(get_sound_key_for_key(&PhysicalKey::KeyD), "32");
    assert_eq!(get_sound_key_for_key(&PhysicalKey::KeyF), "33");
    assert_eq!(get_sound_key_for_key(&PhysicalKey::KeyG), "34");
    assert_eq!(get_sound_key_for_key(&PhysicalKey::KeyH), "35");
    assert_eq!(get_sound_key_for_key(&PhysicalKey::KeyJ), "36");
    assert_eq!(get_sound_key_for_key(&PhysicalKey::KeyK), "37");
    assert_eq!(get_sound_key_for_key(&PhysicalKey::KeyL), "38");
}

#[test]
fn bottom_row_letters_have_their_own_sound_keys() {
    assert_eq!(get_sound_key_for_key(&PhysicalKey::KeyZ), "44");
    assert_eq!(get_sound_key_for_key(&PhysicalKey::KeyX), "45");
    assert_eq!(get_sound_key_for_key(&PhysicalKey::KeyC), "46");
    assert_eq!(get_sound_key_for_key(&PhysicalKey::KeyV), "47");
    assert_eq!(get_sound_key_for_key(&PhysicalKey::KeyB), "48");
    assert_eq!(get_sound_key_for_key(&PhysicalKey::KeyN), "49");
    assert_eq!(get_sound_key_for_key(&PhysicalKey::KeyM), "50");
}

#[test]
fn control_keys_have_their_own_sound_keys() {
    assert_eq!(get_sound_key_for_key(&PhysicalKey::Space), "57");
    assert_eq!(get_sound_key_for_key(&PhysicalKey::Return), "28");
    assert_eq!(get_sound_key_for_key(&PhysicalKey::Backspace), "14");
    assert_eq!(get_sound_key_for_key(&PhysicalKey::Tab), "15");
    assert_eq!(get_sound_key_for_key(&PhysicalKey::CapsLock), "58");
}

#[test]
fn both_shift_keys_share_one_sound_key() {
    assert_eq!(get_sound_key_for_key(&PhysicalKey::ShiftLeft), "42");
    assert_eq!(get_sound_key_for_key(&PhysicalKey::ShiftRight), "42");
}

#[test]
fn keys_without_a_sound_of_their_own_get_the_default() {
    let unlisted = [
        PhysicalKey::Alt,
        PhysicalKey::AltGr,
        PhysicalKey::ControlLeft,
        PhysicalKey::ControlRight,
        PhysicalKey::Delete,
        PhysicalKey::Escape,
        PhysicalKey::F1,
        PhysicalKey::F12,
        PhysicalKey::Home,
        PhysicalKey::UpArrow,
        PhysicalKey::MetaLeft,
        PhysicalKey::Num1,
        PhysicalKey::Num0,
        PhysicalKey::Minus,
        PhysicalKey::LeftBracket,
        PhysicalKey::SemiColon,
        PhysicalKey::Comma,
        PhysicalKey::Slash,
        PhysicalKey::KpReturn,
        PhysicalKey::Kp5,
        PhysicalKey::Function,
        PhysicalKey::Unknown(0),
        PhysicalKey::Unknown(57),
        PhysicalKey::Unknown(u32::MAX),
    ];
    for key in unlisted.iter() {
        assert_eq!(get_sound_key_for_key(key), "1");
    }
}
