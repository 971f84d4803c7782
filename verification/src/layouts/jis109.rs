//! The Japanese layout, Latin characters only.

use vstd::prelude::*;
use crate::event::KeyboardLayout;
use crate::layouts::us104::{us104_decoded, Us104Key};
use crate::modifiers::Modifiers;
use crate::types::{DecodedKey, HandleControl, KeyCode, PhysicalKeyboard};

verus! {

/// A Japanese keyboard with 106 or 109 keys.
pub struct Jis109Key;

/// What a key of the Japanese layout gives: the keys on which it differs,
/// and for the rest what the United States layout gives. The keys that
/// switch the input method give themselves.
pub open spec fn jis109_decoded(keycode: KeyCode, modifiers: Modifiers, handle_ctrl: HandleControl) -> DecodedKey {
    match keycode {
        KeyCode::Oem8 => {
            DecodedKey::RawKey(KeyCode::Oem8)
        },
        KeyCode::Escape => DecodedKey::Unicode('\u{001B}'),
        KeyCode::Key1 => modifiers.symbol2('1', '!'),
        KeyCode::Key2 => modifiers.symbol2('2', '"'),
        KeyCode::Key3 => modifiers.symbol2('3', '#'),
        KeyCode::Key4 => modifiers.symbol2('4', '$'),
        KeyCode::Key5 => modifiers.symbol2('5', '%'),
        KeyCode::Key6 => modifiers.symbol2('6', '&'),
        KeyCode::Key7 => modifiers.symbol2('7', '\''),
        KeyCode::Key8 => modifiers.symbol2('8', '('),
        KeyCode::Key9 => modifiers.symbol2('9', ')'),
        KeyCode::Key0 => modifiers.symbol2('0', '~'),
        KeyCode::OemMinus => modifiers.symbol2('-', '='),
        KeyCode::OemPlus => modifiers.symbol2('^', '¯'),
        KeyCode::Oem4 => modifiers.symbol2('@', '`'),
        KeyCode::Oem6 => modifiers.symbol2('[', '{'),
        KeyCode::Oem7 => modifiers.symbol2(']', '}'),
        KeyCode::Oem1 => modifiers.symbol2(';', '+'),
        KeyCode::Oem3 => modifiers.symbol2(':', '*'),
        KeyCode::Oem9 => {
            DecodedKey::RawKey(keycode)
        },
        KeyCode::Oem10 => {
            DecodedKey::RawKey(keycode)
        },
        KeyCode::Oem11 => {
            DecodedKey::RawKey(keycode)
        },
        KeyCode::Oem12 => modifiers.symbol2('\\', '_'),
        KeyCode::Oem13 => modifiers.symbol2('¥', '|'),
        other => us104_decoded(other, modifiers, handle_ctrl),
    }
}

impl KeyboardLayout for Jis109Key {
    open spec fn decoded(&self, keycode: KeyCode, modifiers: Modifiers, handle_ctrl: HandleControl) -> DecodedKey {
        jis109_decoded(keycode, modifiers, handle_ctrl)
    }

    open spec fn physical(&self) -> PhysicalKeyboard {
        PhysicalKeyboard::Jis
    }

    fn map_keycode(&self, keycode: KeyCode, modifiers: &Modifiers, handle_ctrl: HandleControl) -> (key:
        DecodedKey) {
        match keycode {
            KeyCode::Oem8 => {
                DecodedKey::RawKey(KeyCode::Oem8)
            },
            KeyCode::Escape => DecodedKey::Unicode('\u{001B}'),
            KeyCode::Key1 => {
                if modifiers.is_shifted() {
                    DecodedKey::Unicode('!')
                } else {
                    DecodedKey::Unicode('1')
                }
            },
            KeyCode::Key2 => {
                if modifiers.is_shifted() {
                    DecodedKey::Unicode('"')
                } else {
                    DecodedKey::Unicode('2')
                }
            },
            KeyCode::Key3 => {
                if modifiers.is_shifted() {
                    DecodedKey::Unicode('#')
                } else {
                    DecodedKey::Unicode('3')
                }
            },
            KeyCode::Key4 => {
                if modifiers.is_shifted() {
                    DecodedKey::Unicode('$')
                } else {
                    DecodedKey::Unicode('4')
                }
            },
            KeyCode::Key5 => {
                if modifiers.is_shifted() {
                    DecodedKey::Unicode('%')
                } else {
                    DecodedKey::Unicode('5')
                }
            },
            KeyCode::Key6 => {
                if modifiers.is_shifted() {
                    DecodedKey::Unicode('&')
                } else {
                    DecodedKey::Unicode('6')
                }
            },
            KeyCode::Key7 => {
                if modifiers.is_shifted() {
                    DecodedKey::Unicode('\'')
                } else {
                    DecodedKey::Unicode('7')
                }
            },
            KeyCode::Key8 => {
                if modifiers.is_shifted() {
                    DecodedKey::Unicode('(')
                } else {
                    DecodedKey::Unicode('8')
                }
            },
            KeyCode::Key9 => {
                if modifiers.is_shifted() {
                    DecodedKey::Unicode(')')
                } else {
                    DecodedKey::Unicode('9')
                }
            },
            KeyCode::Key0 => {
                if modifiers.is_shifted() {
                    DecodedKey::Unicode('~')
                } else {
                    DecodedKey::Unicode('0')
                }
            },
            KeyCode::OemMinus => {
                if modifiers.is_shifted() {
                    DecodedKey::Unicode('=')
                } else {
                    DecodedKey::Unicode('-')
                }
            },
            KeyCode::OemPlus => {
                if modifiers.is_shifted() {
                    DecodedKey::Unicode('¯')
                } else {
                    DecodedKey::Unicode('^')
                }
            },
            KeyCode::Oem4 => {
                if modifiers.is_shifted() {
                    DecodedKey::Unicode('`')
                } else {
                    DecodedKey::Unicode('@')
                }
            },
            KeyCode::Oem6 => {
                if modifiers.is_shifted() {
                    DecodedKey::Unicode('{')
                } else {
                    DecodedKey::Unicode('[')
                }
            },
            KeyCode::Oem7 => {
                if modifiers.is_shifted() {
                    DecodedKey::Unicode('}')
                } else {
                    DecodedKey::Unicode(']')
                }
            },
            KeyCode::Oem1 => {
                if modifiers.is_shifted() {
                    DecodedKey::Unicode('+')
                } else {
                    DecodedKey::Unicode(';')
                }
            },
            KeyCode::Oem3 => {
                if modifiers.is_shifted() {
                    DecodedKey::Unicode('*')
                } else {
                    DecodedKey::Unicode(':')
                }
            },
            KeyCode::Oem9 => {
                DecodedKey::RawKey(keycode)
            },
            KeyCode::Oem10 => {
                DecodedKey::RawKey(keycode)
            },
            KeyCode::Oem11 => {
                DecodedKey::RawKey(keycode)
            },
            KeyCode::Oem12 => {
                if modifiers.is_shifted() {
                    DecodedKey::Unicode('_')
                } else {
                    DecodedKey::Unicode('\\')
                }
            },
            KeyCode::Oem13 => {
                if modifiers.is_shifted() {
                    DecodedKey::Unicode('|')
                } else {
                    DecodedKey::Unicode('¥')
                }
            },
            other => Us104Key.map_keycode(other, modifiers, handle_ctrl),
        }
    }

    fn get_physical(&self) -> (kind: PhysicalKeyboard) {
        PhysicalKeyboard::Jis
    }
}

} // verus!
