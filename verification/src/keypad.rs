use vstd::prelude::*;

verus! {

/// A physical key of the host keyboard, as far as the keypad knows it.
#[derive(Debug, Clone, Copy, PartialEq, Eq, Structural)]
pub enum KeyCode {
    Digit1,
    Digit2,
    Digit3,
    Digit4,
    KeyQ,
    KeyW,
    KeyE,
    KeyR,
    KeyA,
    KeyS,
    KeyD,
    KeyF,
    KeyZ,
    KeyX,
    KeyC,
    KeyV,
    /// Any key that is not part of the keypad.
    Other,
}

/// Whether a key went down or came up.
#[derive(Debug, Clone, Copy, PartialEq, Eq, Structural)]
pub enum ElementState {
    Pressed,
    Released,
}

impl ElementState {
    /// Whether this is `Pressed`.
    pub fn is_pressed(self) -> (pressed: bool)
        ensures
            pressed == (self == ElementState::Pressed),
    {
        match self {
            ElementState::Pressed => true,
            ElementState::Released => false,
        }
    }
}

/// The keypad key, 0 to F, that a physical key stands for. The left four
/// columns of a QWERTY keyboard take the place of the hexadecimal keypad:
///
/// ```text
/// 1 2 3 4        1 2 3 C
/// Q W E R   for  4 5 6 D
/// A S D F        7 8 9 E
/// Z X C V        A 0 B F
/// ```
pub open spec fn keypad_index(key_code: KeyCode) -> Option<u8> {
    match key_code {
        KeyCode::KeyX => Some(0x0u8),
        KeyCode::Digit1 => Some(0x1u8),
        KeyCode::Digit2 => Some(0x2u8),
        KeyCode::Digit3 => Some(0x3u8),
        KeyCode::KeyQ => Some(0x4u8),
        KeyCode::KeyW => Some(0x5u8),
        KeyCode::KeyE => Some(0x6u8),
        KeyCode::KeyA => Some(0x7u8),
        KeyCode::KeyS => Some(0x8u8),
        KeyCode::KeyD => Some(0x9u8),
        KeyCode::KeyZ => Some(0xAu8),
        KeyCode::KeyC => Some(0xBu8),
        KeyCode::Digit4 => Some(0xCu8),
        KeyCode::KeyR => Some(0xDu8),
        KeyCode::KeyF => Some(0xEu8),
        KeyCode::KeyV => Some(0xFu8),
        KeyCode::Other => None,
    }
}

/// The keypad key that `key_code` stands for, if it stands for one.
pub fn keypad_key(key_code: KeyCode) -> (key: Option<u8>)
    ensures
        key == keypad_index(key_code),
        key matches Some(k) ==> k < 16,
{
    match key_code {
        KeyCode::KeyX => Some(0x0),
        KeyCode::Digit1 => Some(0x1),
        KeyCode::Digit2 => Some(0x2),
        KeyCode::Digit3 => Some(0x3),
        KeyCode::KeyQ => Some(0x4),
        KeyCode::KeyW => Some(0x5),
        KeyCode::KeyE => Some(0x6),
        KeyCode::KeyA => Some(0x7),
        KeyCode::KeyS => Some(0x8),
        KeyCode::KeyD => Some(0x9),
        KeyCode::KeyZ => Some(0xA),
        KeyCode::KeyC => Some(0xB),
        KeyCode::Digit4 => Some(0xC),
        KeyCode::KeyR => Some(0xD),
        KeyCode::KeyF => Some(0xE),
        KeyCode::KeyV => Some(0xF),
        KeyCode::Other => None,
    }
}

/// Two physical keys never share a keypad key.
pub proof fn keypad_index_is_injective(a: KeyCode, b: KeyCode)
    requires
        keypad_index(a) is Some,
        keypad_index(a) == keypad_index(b),
    ensures
        a == b,
{
}

} // verus!
