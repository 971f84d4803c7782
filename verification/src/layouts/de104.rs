//! The German layout on a keyboard with a wide Enter key.

use vstd::prelude::*;
use crate::event::KeyboardLayout;
use crate::layouts::us104::{us104_decoded, Us104Key};
use crate::modifiers::Modifiers;
use crate::types::{DecodedKey, HandleControl, KeyCode, PhysicalKeyboard};

verus! {

/// A German keyboard with 101 or 104 keys.
pub struct De104Key;

/// What a key of this German layout gives: the keys on which it differs,
/// and for the rest what the United States layout gives.
pub open spec fn de104_decoded(keycode: KeyCode, modifiers: Modifiers, handle_ctrl: HandleControl) -> DecodedKey {
    match keycode {
        KeyCode::Escape => DecodedKey::Unicode('\u{001B}'),
        KeyCode::Oem8 => modifiers.symbol2('^', '°'),
        KeyCode::Key1 => modifiers.symbol2('1', '!'),
        KeyCode::Key2 => modifiers.symbol2('2', '"'),
        KeyCode::Key3 => modifiers.symbol2('3', '§'),
        KeyCode::Key4 => modifiers.symbol2('4', '$'),
        KeyCode::Key5 => modifiers.symbol2('5', '%'),
        KeyCode::Key6 => modifiers.symbol2('6', '&'),
        KeyCode::Key7 => modifiers.symbol2('7', '/'),
        KeyCode::Key8 => modifiers.symbol2('8', '('),
        KeyCode::Key9 => modifiers.symbol2('9', ')'),
        KeyCode::Key0 => modifiers.symbol2('0', '='),
        KeyCode::OemMinus => modifiers.symbol2('ß', '?'),
        KeyCode::OemPlus => modifiers.symbol2('´', '`'),
        KeyCode::Backspace => DecodedKey::Unicode('\u{0008}'),
        KeyCode::Tab => DecodedKey::Unicode('\u{0009}'),
        KeyCode::Q => modifiers.ascii_3('Q', '@', handle_ctrl),
        KeyCode::E => modifiers.ascii_3('E', '€', handle_ctrl),
        KeyCode::Y => {
            if handle_ctrl == HandleControl::MapLettersToUnicode && modifiers.is_ctrl() {
                DecodedKey::Unicode('\u{0014}')
            } else if modifiers.is_caps() {
                DecodedKey::Unicode('Z')
            } else {
                DecodedKey::Unicode('z')
            }
        },
        KeyCode::Oem4 => modifiers.letter2('ü', 'Ü'),
        KeyCode::Oem6 => {
            if modifiers.ralt {
                DecodedKey::Unicode('~')
            } else if modifiers.is_caps() {
                DecodedKey::Unicode('*')
            } else {
                DecodedKey::Unicode('+')
            }
        },
        KeyCode::Return => DecodedKey::Unicode('\u{000A}'),
        KeyCode::Oem7 => modifiers.symbol2('#', '\''),
        KeyCode::Oem1 => modifiers.symbol2('ö', 'Ö'),
        KeyCode::Oem3 => modifiers.symbol2('ä', 'Ä'),
        KeyCode::Z => {
            if handle_ctrl == HandleControl::MapLettersToUnicode && modifiers.is_ctrl() {
                DecodedKey::Unicode('\u{001A}')
            } else if modifiers.is_caps() {
                DecodedKey::Unicode('Y')
            } else {
                DecodedKey::Unicode('y')
            }
        },
        KeyCode::OemComma => modifiers.symbol2(',', ';'),
        KeyCode::OemPeriod => modifiers.symbol2('.', ':'),
        KeyCode::Oem2 => modifiers.symbol2('-', '_'),
        KeyCode::Oem5 => {
            if modifiers.is_shifted() {
                DecodedKey::Unicode('>')
            } else if modifiers.ralt {
                DecodedKey::Unicode('|')
            } else {
                DecodedKey::Unicode('<')
            }
        },
        other => us104_decoded(other, modifiers, handle_ctrl),
    }
}

impl KeyboardLayout for De104Key {
    open spec fn decoded(&self, keycode: KeyCode, modifiers: Modifiers, handle_ctrl: HandleControl) -> DecodedKey {
        de104_decoded(keycode, modifiers, handle_ctrl)
    }

    open spec fn physical(&self) -> PhysicalKeyboard {
        PhysicalKeyboard::Ansi
    }

    fn map_keycode(&self, keycode: KeyCode, modifiers: &Modifiers, handle_ctrl: HandleControl) -> (key:
        DecodedKey) {
        match keycode {
            KeyCode::Escape => DecodedKey::Unicode('\u{001B}'),
            KeyCode::Oem8 => {
                if modifiers.is_shifted() {
                    DecodedKey::Unicode('°')
                } else {
                    DecodedKey::Unicode('^')
                }
            },
            KeyCode::Key1 => {
                if modifiers.is_shifted() {
                    DecodedKey::Unicode('!')
                } else {
                    DecodedKey::Unicode('1')
                }
            },
            KeyCode::Key2 => {
                if modifiers.is_shifted() {
                    DecodedKey::Unicode('"')
                } else {
                    DecodedKey::Unicode('2')
                }
            },
            KeyCode::Key3 => {
                if modifiers.is_shifted() {
                    DecodedKey::Unicode('§')
                } else {
                    DecodedKey::Unicode('3')
                }
            },
            KeyCode::Key4 => {
                if modifiers.is_shifted() {
                    DecodedKey::Unicode('$')
                } else {
                    DecodedKey::Unicode('4')
                }
            },
            KeyCode::Key5 => {
                if modifiers.is_shifted() {
                    DecodedKey::Unicode('%')
                } else {
                    DecodedKey::Unicode('5')
                }
            },
            KeyCode::Key6 => {
                if modifiers.is_shifted() {
                    DecodedKey::Unicode('&')
                } else {
                    DecodedKey::Unicode('6')
                }
            },
            KeyCode::Key7 => {
                if modifiers.is_shifted() {
                    DecodedKey::Unicode('/')
                } else {
                    DecodedKey::Unicode('7')
                }
            },
            KeyCode::Key8 => {
                if modifiers.is_shifted() {
                    DecodedKey::Unicode('(')
                } else {
                    DecodedKey::Unicode('8')
                }
            },
            KeyCode::Key9 => {
                if modifiers.is_shifted() {
                    DecodedKey::Unicode(')')
                } else {
                    DecodedKey::Unicode('9')
                }
            },
            KeyCode::Key0 => {
                if modifiers.is_shifted() {
                    DecodedKey::Unicode('=')
                } else {
                    DecodedKey::Unicode('0')
                }
            },
            KeyCode::OemMinus => {
                if modifiers.is_shifted() {
                    DecodedKey::Unicode('?')
                } else {
                    DecodedKey::Unicode('ß')
                }
            },
            KeyCode::OemPlus => {
                if modifiers.is_shifted() {
                    DecodedKey::Unicode('`')
                } else {
                    DecodedKey::Unicode('´')
                }
            },
            KeyCode::Backspace => DecodedKey::Unicode('\u{0008}'),
            KeyCode::Tab => DecodedKey::Unicode('\u{0009}'),
            KeyCode::Q => {
                if handle_ctrl == HandleControl::MapLettersToUnicode && modifiers.is_ctrl() {
                    DecodedKey::Unicode('\u{0011}')
                } else if modifiers.ralt {
                    DecodedKey::Unicode('@')
                } else if modifiers.is_caps() {
                    DecodedKey::Unicode('Q')
                } else {
                    DecodedKey::Unicode('q')
                }
            },
            KeyCode::E => {
                if handle_ctrl == HandleControl::MapLettersToUnicode && modifiers.is_ctrl() {
                    DecodedKey::Unicode('\u{0005}')
                } else if modifiers.ralt {
                    DecodedKey::Unicode('€')
                } else if modifiers.is_caps() {
                    DecodedKey::Unicode('E')
                } else {
                    DecodedKey::Unicode('e')
                }
            },
            KeyCode::Y => {
                if handle_ctrl == HandleControl::MapLettersToUnicode && modifiers.is_ctrl() {
                    DecodedKey::Unicode('\u{0014}')
                } else if modifiers.is_caps() {
                    DecodedKey::Unicode('Z')
                } else {
                    DecodedKey::Unicode('z')
                }
            },
            KeyCode::Oem4 => {
                if modifiers.is_caps() {
                    DecodedKey::Unicode('Ü')
                } else {
                    DecodedKey::Unicode('ü')
                }
            },
            KeyCode::Oem6 => {
                if modifiers.ralt {
                    DecodedKey::Unicode('~')
                } else if modifiers.is_caps() {
                    DecodedKey::Unicode('*')
                } else {
                    DecodedKey::Unicode('+')
                }
            },
            KeyCode::Return => DecodedKey::Unicode('\u{000A}'),
            KeyCode::Oem7 => {
                if modifiers.is_shifted() {
                    DecodedKey::Unicode('\'')
                } else {
                    DecodedKey::Unicode('#')
                }
            },
            KeyCode::Oem1 => {
                if modifiers.is_shifted() {
                    DecodedKey::Unicode('Ö')
                } else {
                    DecodedKey::Unicode('ö')
                }
            },
            KeyCode::Oem3 => {
                if modifiers.is_shifted() {
                    DecodedKey::Unicode('Ä')
                } else {
                    DecodedKey::Unicode('ä')
                }
            },
            KeyCode::Z => {
                if handle_ctrl == HandleControl::MapLettersToUnicode && modifiers.is_ctrl() {
                    DecodedKey::Unicode('\u{001A}')
                } else if modifiers.is_caps() {
                    DecodedKey::Unicode('Y')
                } else {
                    DecodedKey::Unicode('y')
                }
            },
            KeyCode::OemComma => {
                if modifiers.is_shifted() {
                    DecodedKey::Unicode(';')
                } else {
                    DecodedKey::Unicode(',')
                }
            },
            KeyCode::OemPeriod => {
                if modifiers.is_shifted() {
                    DecodedKey::Unicode(':')
                } else {
                    DecodedKey::Unicode('.')
                }
            },
            KeyCode::Oem2 => {
                if modifiers.is_shifted() {
                    DecodedKey::Unicode('_')
                } else {
                    DecodedKey::Unicode('-')
                }
            },
            KeyCode::Oem5 => {
                if modifiers.is_shifted() {
                    DecodedKey::Unicode('>')
                } else if modifiers.ralt {
                    DecodedKey::Unicode('|')
                } else {
                    DecodedKey::Unicode('<')
                }
            },
            other => Us104Key.map_keycode(other, modifiers, handle_ctrl),
        }
    }

    fn get_physical(&self) -> (kind: PhysicalKeyboard) {
        PhysicalKeyboard::Ansi
    }
}

} // verus!
