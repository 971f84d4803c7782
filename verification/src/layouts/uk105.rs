//! The layout of the United Kingdom.

use vstd::prelude::*;
use crate::event::KeyboardLayout;
use crate::layouts::us104::{us104_decoded, Us104Key};
use crate::modifiers::Modifiers;
use crate::types::{DecodedKey, HandleControl, KeyCode, PhysicalKeyboard};

verus! {

/// A keyboard of the United Kingdom with 102 or 105 keys: a tall Enter key,
/// and the backslash key beside the left shift key.
pub struct Uk105Key;

/// What a key of the United Kingdom layout gives: the keys on which it
/// differs, and for the rest what the United States layout gives.
pub open spec fn uk105_decoded(keycode: KeyCode, modifiers: Modifiers, handle_ctrl: HandleControl) -> DecodedKey {
    match keycode {
        KeyCode::Oem8 => modifiers.symbol3('`', '¬', '|'),
        KeyCode::Key2 => modifiers.symbol2('2', '"'),
        KeyCode::Oem3 => modifiers.symbol2('\'', '@'),
        KeyCode::Key3 => modifiers.symbol2('3', '£'),
        KeyCode::Key4 => modifiers.symbol3('4', '$', '€'),
        KeyCode::Oem7 => modifiers.symbol2('#', '~'),
        KeyCode::Oem5 => modifiers.symbol2('\\', '|'),
        other => us104_decoded(other, modifiers, handle_ctrl),
    }
}

impl KeyboardLayout for Uk105Key {
    open spec fn decoded(&self, keycode: KeyCode, modifiers: Modifiers, handle_ctrl: HandleControl) -> DecodedKey {
        uk105_decoded(keycode, modifiers, handle_ctrl)
    }

    open spec fn physical(&self) -> PhysicalKeyboard {
        PhysicalKeyboard::Iso
    }

    fn map_keycode(&self, keycode: KeyCode, modifiers: &Modifiers, handle_ctrl: HandleControl) -> (key:
        DecodedKey) {
        match keycode {
            KeyCode::Oem8 => {
                if modifiers.is_altgr() {
                    DecodedKey::Unicode('|')
                } else if modifiers.is_shifted() {
                    DecodedKey::Unicode('¬')
                } else {
                    DecodedKey::Unicode('`')
                }
            },
            KeyCode::Key2 => {
                if modifiers.is_shifted() {
                    DecodedKey::Unicode('"')
                } else {
                    DecodedKey::Unicode('2')
                }
            },
            KeyCode::Oem3 => {
                if modifiers.is_shifted() {
                    DecodedKey::Unicode('@')
                } else {
                    DecodedKey::Unicode('\'')
                }
            },
            KeyCode::Key3 => {
                if modifiers.is_shifted() {
                    DecodedKey::Unicode('£')
                } else {
                    DecodedKey::Unicode('3')
                }
            },
            KeyCode::Key4 => {
                if modifiers.is_altgr() {
                    DecodedKey::Unicode('€')
                } else if modifiers.is_shifted() {
                    DecodedKey::Unicode('$')
                } else {
                    DecodedKey::Unicode('4')
                }
            },
            KeyCode::Oem7 => {
                if modifiers.is_shifted() {
                    DecodedKey::Unicode('~')
                } else {
                    DecodedKey::Unicode('#')
                }
            },
            KeyCode::Oem5 => {
                if modifiers.is_shifted() {
                    DecodedKey::Unicode('|')
                } else {
                    DecodedKey::Unicode('\\')
                }
            },
            other => Us104Key.map_keycode(other, modifiers, handle_ctrl),
        }
    }

    fn get_physical(&self) -> (kind: PhysicalKeyboard) {
        PhysicalKeyboard::Iso
    }
}

} // verus!
