//! The German layout.

use vstd::prelude::*;
use crate::event::KeyboardLayout;
use crate::layouts::us104::{us104_decoded, Us104Key};
use crate::modifiers::Modifiers;
use crate::types::{DecodedKey, HandleControl, KeyCode, PhysicalKeyboard};

verus! {

/// A German keyboard with 102 or 105 keys.
pub struct De105Key;

/// What a key of the German layout gives: the keys on which it differs,
/// and for the rest what the United States layout gives.
pub open spec fn de105_decoded(keycode: KeyCode, modifiers: Modifiers, handle_ctrl: HandleControl) -> DecodedKey {
    match keycode {
        KeyCode::Oem8 => modifiers.symbol2('^', '°'),
        KeyCode::Key2 => modifiers.symbol3('2', '"', '²'),
        KeyCode::Key3 => modifiers.symbol3('3', '§', '³'),
        KeyCode::Key6 => modifiers.symbol2('6', '&'),
        KeyCode::Key7 => modifiers.symbol3('7', '/', '{'),
        KeyCode::Key8 => modifiers.symbol3('8', '(', '['),
        KeyCode::Key9 => modifiers.symbol3('9', ')', ']'),
        KeyCode::Key0 => modifiers.symbol3('0', '=', '}'),
        KeyCode::OemMinus => modifiers.symbol3('ß', '?', '\\'),
        KeyCode::OemPlus => modifiers.symbol2('´', '`'),
        KeyCode::Q => modifiers.ascii_4('Q', '@', '@', handle_ctrl),
        KeyCode::E => modifiers.ascii_4('E', '€', '€', handle_ctrl),
        KeyCode::Y => modifiers.ascii_2('Z', handle_ctrl),
        KeyCode::Oem4 => modifiers.letter2('ü', 'Ü'),
        KeyCode::Oem6 => modifiers.symbol3('+', '*', '~'),
        KeyCode::Oem1 => modifiers.letter2('ö', 'Ö'),
        KeyCode::Oem3 => modifiers.letter2('ä', 'Ä'),
        KeyCode::Oem7 => modifiers.symbol2('#', '\''),
        KeyCode::Oem5 => modifiers.symbol3('<', '>', '|'),
        KeyCode::Z => modifiers.ascii_2('Y', handle_ctrl),
        KeyCode::M => modifiers.ascii_4('M', 'µ', 'µ', handle_ctrl),
        KeyCode::OemComma => modifiers.symbol2(',', ';'),
        KeyCode::OemPeriod => modifiers.symbol2('.', ':'),
        KeyCode::Oem2 => modifiers.symbol2('-', '_'),
        other => us104_decoded(other, modifiers, handle_ctrl),
    }
}

impl KeyboardLayout for De105Key {
    open spec fn decoded(&self, keycode: KeyCode, modifiers: Modifiers, handle_ctrl: HandleControl) -> DecodedKey {
        de105_decoded(keycode, modifiers, handle_ctrl)
    }

    open spec fn physical(&self) -> PhysicalKeyboard {
        PhysicalKeyboard::Iso
    }

    fn map_keycode(&self, keycode: KeyCode, modifiers: &Modifiers, handle_ctrl: HandleControl) -> (key:
        DecodedKey) {
        match keycode {
            KeyCode::Oem8 => modifiers.handle_symbol2('^', '°'),
            KeyCode::Key2 => modifiers.handle_symbol3('2', '"', '²'),
            KeyCode::Key3 => modifiers.handle_symbol3('3', '§', '³'),
            KeyCode::Key6 => modifiers.handle_symbol2('6', '&'),
            KeyCode::Key7 => modifiers.handle_symbol3('7', '/', '{'),
            KeyCode::Key8 => modifiers.handle_symbol3('8', '(', '['),
            KeyCode::Key9 => modifiers.handle_symbol3('9', ')', ']'),
            KeyCode::Key0 => modifiers.handle_symbol3('0', '=', '}'),
            KeyCode::OemMinus => modifiers.handle_symbol3('ß', '?', '\\'),
            KeyCode::OemPlus => modifiers.handle_symbol2('´', '`'),
            KeyCode::Q => modifiers.handle_ascii_4('Q', '@', '@', handle_ctrl),
            KeyCode::E => modifiers.handle_ascii_4('E', '€', '€', handle_ctrl),
            KeyCode::Y => modifiers.handle_ascii_2('Z', handle_ctrl),
            KeyCode::Oem4 => modifiers.handle_letter2('ü', 'Ü'),
            KeyCode::Oem6 => modifiers.handle_symbol3('+', '*', '~'),
            KeyCode::Oem1 => modifiers.handle_letter2('ö', 'Ö'),
            KeyCode::Oem3 => modifiers.handle_letter2('ä', 'Ä'),
            KeyCode::Oem7 => modifiers.handle_symbol2('#', '\''),
            KeyCode::Oem5 => modifiers.handle_symbol3('<', '>', '|'),
            KeyCode::Z => modifiers.handle_ascii_2('Y', handle_ctrl),
            KeyCode::M => modifiers.handle_ascii_4('M', 'µ', 'µ', handle_ctrl),
            KeyCode::OemComma => modifiers.handle_symbol2(',', ';'),
            KeyCode::OemPeriod => modifiers.handle_symbol2('.', ':'),
            KeyCode::Oem2 => modifiers.handle_symbol2('-', '_'),
            other => Us104Key.map_keycode(other, modifiers, handle_ctrl),
        }
    }

    fn get_physical(&self) -> (kind: PhysicalKeyboard) {
        PhysicalKeyboard::Iso
    }
}

} // verus!
