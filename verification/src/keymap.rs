//! The input mapper: from a physical key to the logical sound key under
//! which its sample is loaded.

use vstd::prelude::*;

verus! {

/// A physical key of the keyboard, named after its place on a QWERTY layout.
#[derive(Debug, Clone, Copy, PartialEq, Eq)]
pub enum PhysicalKey {
    Alt,
    AltGr,
    Backspace,
    CapsLock,
    ControlLeft,
    ControlRight,
    Delete,
    DownArrow,
    End,
    Escape,
    F1,
    F10,
    F11,
    F12,
    F2,
    F3,
    F4,
    F5,
    F6,
    F7,
    F8,
    F9,
    Home,
    LeftArrow,
    MetaLeft,
    MetaRight,
    PageDown,
    PageUp,
    Return,
    RightArrow,
    ShiftLeft,
    ShiftRight,
    Space,
    Tab,
    UpArrow,
    PrintScreen,
    ScrollLock,
    Pause,
    NumLock,
    BackQuote,
    Num1,
    Num2,
    Num3,
    Num4,
    Num5,
    Num6,
    Num7,
    Num8,
    Num9,
    Num0,
    Minus,
    Equal,
    KeyQ,
    KeyW,
    KeyE,
    KeyR,
    KeyT,
    KeyY,
    KeyU,
    KeyI,
    KeyO,
    KeyP,
    LeftBracket,
    RightBracket,
    KeyA,
    KeyS,
    KeyD,
    KeyF,
    KeyG,
    KeyH,
    KeyJ,
    KeyK,
    KeyL,
    SemiColon,
    Quote,
    BackSlash,
    IntlBackslash,
    KeyZ,
    KeyX,
    KeyC,
    KeyV,
    KeyB,
    KeyN,
    KeyM,
    Comma,
    Dot,
    Slash,
    Insert,
    KpReturn,
    KpMinus,
    KpPlus,
    KpMultiply,
    KpDivide,
    Kp0,
    Kp1,
    Kp2,
    Kp3,
    Kp4,
    Kp5,
    Kp6,
    Kp7,
    Kp8,
    Kp9,
    KpDelete,
    Function,
    /// A key that has no name here, with the code that the system reports for it.
    Unknown(u32),
}

/// The logical sound key that keys without a sound of their own share.
pub open spec fn default_sound_key() -> Seq<char> {
    "1"@
}

/// The logical sound key of each physical key. Every key has one: the keys
/// that are not listed share the default.
pub open spec fn sound_key_of(key: PhysicalKey) -> Seq<char> {
    match key {
        PhysicalKey::KeyQ => "1"@,
        PhysicalKey::KeyW => "2"@,
        PhysicalKey::KeyE => "3"@,
        PhysicalKey::KeyR => "5"@,
        PhysicalKey::KeyT => "6"@,
        PhysicalKey::KeyY => "7"@,
        PhysicalKey::KeyU => "8"@,
        PhysicalKey::KeyI => "9"@,
        PhysicalKey::KeyO => "10"@,
        PhysicalKey::KeyP => "11"@,
        PhysicalKey::KeyA => "30"@,
        PhysicalKey::KeyS => "31"@,
        PhysicalKey::KeyD => "32"@,
        PhysicalKey::KeyF => "33"@,
        PhysicalKey::KeyG => "34"@,
        PhysicalKey::KeyH => "35"@,
        PhysicalKey::KeyJ => "36"@,
        PhysicalKey::KeyK => "37"@,
        PhysicalKey::KeyL => "38"@,
        PhysicalKey::KeyZ => "44"@,
        PhysicalKey::KeyX => "45"@,
        PhysicalKey::KeyC => "46"@,
        PhysicalKey::KeyV => "47"@,
        PhysicalKey::KeyB => "48"@,
        PhysicalKey::KeyN => "49"@,
        PhysicalKey::KeyM => "50"@,
        PhysicalKey::Space => "57"@,
        PhysicalKey::Return => "28"@,
        PhysicalKey::Backspace => "14"@,
        PhysicalKey::Tab => "15"@,
        PhysicalKey::CapsLock => "58"@,
        PhysicalKey::ShiftLeft | PhysicalKey::ShiftRight => "42"@,
        _ => default_sound_key(),
    }
}

/// Whether `key` has a logical sound key of its own in the table.
pub open spec fn has_own_sound(key: PhysicalKey) -> bool {
    match key {
        PhysicalKey::KeyQ
        | PhysicalKey::KeyW
        | PhysicalKey::KeyE
        | PhysicalKey::KeyR
        | PhysicalKey::KeyT
        | PhysicalKey::KeyY
        | PhysicalKey::KeyU
        | PhysicalKey::KeyI
        | PhysicalKey::KeyO
        | PhysicalKey::KeyP
        | PhysicalKey::KeyA
        | PhysicalKey::KeyS
        | PhysicalKey::KeyD
        | PhysicalKey::KeyF
        | PhysicalKey::KeyG
        | PhysicalKey::KeyH
        | PhysicalKey::KeyJ
        | PhysicalKey::KeyK
        | PhysicalKey::KeyL
        | PhysicalKey::KeyZ
        | PhysicalKey::KeyX
        | PhysicalKey::KeyC
        | PhysicalKey::KeyV
        | PhysicalKey::KeyB
        | PhysicalKey::KeyN
        | PhysicalKey::KeyM
        | PhysicalKey::Space
        | PhysicalKey::Return
        | PhysicalKey::Backspace
        | PhysicalKey::Tab
        | PhysicalKey::CapsLock
        | PhysicalKey::ShiftLeft
        | PhysicalKey::ShiftRight => true,
        _ => false,
    }
}

/// The logical sound key of `key`.
pub fn get_sound_key_for_key(key: &PhysicalKey) -> (sound_key: String)
    ensures
        sound_key@ == sound_key_of(*key),
        !has_own_sound(*key) ==> sound_key@ == default_sound_key(),
{
    let name = match key {
        PhysicalKey::KeyQ => "1",
        PhysicalKey::KeyW => "2",
        PhysicalKey::KeyE => "3",
        PhysicalKey::KeyR => "5",
        PhysicalKey::KeyT => "6",
        PhysicalKey::KeyY => "7",
        PhysicalKey::KeyU => "8",
        PhysicalKey::KeyI => "9",
        PhysicalKey::KeyO => "10",
        PhysicalKey::KeyP => "11",
        PhysicalKey::KeyA => "30",
        PhysicalKey::KeyS => "31",
        PhysicalKey::KeyD => "32",
        PhysicalKey::KeyF => "33",
        PhysicalKey::KeyG => "34",
        PhysicalKey::KeyH => "35",
        PhysicalKey::KeyJ => "36",
        PhysicalKey::KeyK => "37",
        PhysicalKey::KeyL => "38",
        PhysicalKey::KeyZ => "44",
        PhysicalKey::KeyX => "45",
        PhysicalKey::KeyC => "46",
        PhysicalKey::KeyV => "47",
        PhysicalKey::KeyB => "48",
        PhysicalKey::KeyN => "49",
        PhysicalKey::KeyM => "50",
        PhysicalKey::Space => "57",
        PhysicalKey::Return => "28",
        PhysicalKey::Backspace => "14",
        PhysicalKey::Tab => "15",
        PhysicalKey::CapsLock => "58",
        PhysicalKey::ShiftLeft | PhysicalKey::ShiftRight => "42",
        _ => "1",
    };
    String::from_str(name)
}

} // verus!
