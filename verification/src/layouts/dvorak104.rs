//! The Dvorak layout.

use vstd::prelude::*;
use crate::event::KeyboardLayout;
use crate::layouts::us104::{us104_decoded, Us104Key};
use crate::modifiers::Modifiers;
use crate::types::{DecodedKey, HandleControl, KeyCode, PhysicalKeyboard};

verus! {

/// A Dvorak keyboard with 101 or 104 keys.
pub struct Dvorak104Key;

/// What a key of the Dvorak layout gives: the keys that Dvorak moves, and
/// for the rest what the United States layout gives.
pub open spec fn dvorak104_decoded(keycode: KeyCode, modifiers: Modifiers, handle_ctrl: HandleControl) -> DecodedKey {
    match keycode {
        KeyCode::OemMinus => modifiers.symbol2('[', '{'),
        KeyCode::OemPlus => modifiers.symbol2(']', '}'),
        KeyCode::Q => modifiers.symbol2('\'', '"'),
        KeyCode::W => modifiers.symbol2(',', '<'),
        KeyCode::E => modifiers.symbol2('.', '>'),
        KeyCode::R => modifiers.ascii_2('P', handle_ctrl),
        KeyCode::T => modifiers.ascii_2('Y', handle_ctrl),
        KeyCode::Y => modifiers.ascii_2('F', handle_ctrl),
        KeyCode::U => modifiers.ascii_2('G', handle_ctrl),
        KeyCode::I => modifiers.ascii_2('C', handle_ctrl),
        KeyCode::O => modifiers.ascii_2('R', handle_ctrl),
        KeyCode::P => modifiers.ascii_2('L', handle_ctrl),
        KeyCode::Oem4 => modifiers.symbol2('/', '?'),
        KeyCode::Oem6 => modifiers.symbol2('=', '+'),
        KeyCode::S => modifiers.ascii_2('O', handle_ctrl),
        KeyCode::D => modifiers.ascii_2('E', handle_ctrl),
        KeyCode::F => modifiers.ascii_2('U', handle_ctrl),
        KeyCode::G => modifiers.ascii_2('I', handle_ctrl),
        KeyCode::H => modifiers.ascii_2('D', handle_ctrl),
        KeyCode::J => modifiers.ascii_2('H', handle_ctrl),
        KeyCode::K => modifiers.ascii_2('T', handle_ctrl),
        KeyCode::L => modifiers.ascii_2('N', handle_ctrl),
        KeyCode::Oem1 => modifiers.ascii_2('S', handle_ctrl),
        KeyCode::Oem3 => modifiers.symbol2('-', '_'),
        KeyCode::Z => modifiers.symbol2(';', ':'),
        KeyCode::X => modifiers.ascii_2('Q', handle_ctrl),
        KeyCode::C => modifiers.ascii_2('J', handle_ctrl),
        KeyCode::V => modifiers.ascii_2('K', handle_ctrl),
        KeyCode::B => modifiers.ascii_2('X', handle_ctrl),
        KeyCode::N => modifiers.ascii_2('B', handle_ctrl),
        KeyCode::OemComma => modifiers.ascii_2('W', handle_ctrl),
        KeyCode::OemPeriod => modifiers.ascii_2('V', handle_ctrl),
        KeyCode::Oem2 => modifiers.ascii_2('Z', handle_ctrl),
        other => us104_decoded(other, modifiers, handle_ctrl),
    }
}

impl KeyboardLayout for Dvorak104Key {
    open spec fn decoded(&self, keycode: KeyCode, modifiers: Modifiers, handle_ctrl: HandleControl) -> DecodedKey {
        dvorak104_decoded(keycode, modifiers, handle_ctrl)
    }

    open spec fn physical(&self) -> PhysicalKeyboard {
        PhysicalKeyboard::Ansi
    }

    fn map_keycode(&self, keycode: KeyCode, modifiers: &Modifiers, handle_ctrl: HandleControl) -> (key:
        DecodedKey) {
        match keycode {
            KeyCode::OemMinus => modifiers.handle_symbol2('[', '{'),
            KeyCode::OemPlus => modifiers.handle_symbol2(']', '}'),
            KeyCode::Q => modifiers.handle_symbol2('\'', '"'),
            KeyCode::W => modifiers.handle_symbol2(',', '<'),
            KeyCode::E => modifiers.handle_symbol2('.', '>'),
            KeyCode::R => modifiers.handle_ascii_2('P', handle_ctrl),
            KeyCode::T => modifiers.handle_ascii_2('Y', handle_ctrl),
            KeyCode::Y => modifiers.handle_ascii_2('F', handle_ctrl),
            KeyCode::U => modifiers.handle_ascii_2('G', handle_ctrl),
            KeyCode::I => modifiers.handle_ascii_2('C', handle_ctrl),
            KeyCode::O => modifiers.handle_ascii_2('R', handle_ctrl),
            KeyCode::P => modifiers.handle_ascii_2('L', handle_ctrl),
            KeyCode::Oem4 => modifiers.handle_symbol2('/', '?'),
            KeyCode::Oem6 => modifiers.handle_symbol2('=', '+'),
            KeyCode::S => modifiers.handle_ascii_2('O', handle_ctrl),
            KeyCode::D => modifiers.handle_ascii_2('E', handle_ctrl),
            KeyCode::F => modifiers.handle_ascii_2('U', handle_ctrl),
            KeyCode::G => modifiers.handle_ascii_2('I', handle_ctrl),
            KeyCode::H => modifiers.handle_ascii_2('D', handle_ctrl),
            KeyCode::J => modifiers.handle_ascii_2('H', handle_ctrl),
            KeyCode::K => modifiers.handle_ascii_2('T', handle_ctrl),
            KeyCode::L => modifiers.handle_ascii_2('N', handle_ctrl),
            KeyCode::Oem1 => modifiers.handle_ascii_2('S', handle_ctrl),
            KeyCode::Oem3 => modifiers.handle_symbol2('-', '_'),
            KeyCode::Z => modifiers.handle_symbol2(';', ':'),
            KeyCode::X => modifiers.handle_ascii_2('Q', handle_ctrl),
            KeyCode::C => modifiers.handle_ascii_2('J', handle_ctrl),
            KeyCode::V => modifiers.handle_ascii_2('K', handle_ctrl),
            KeyCode::B => modifiers.handle_ascii_2('X', handle_ctrl),
            KeyCode::N => modifiers.handle_ascii_2('B', handle_ctrl),
            KeyCode::OemComma => modifiers.handle_ascii_2('W', handle_ctrl),
            KeyCode::OemPeriod => modifiers.handle_ascii_2('V', handle_ctrl),
            KeyCode::Oem2 => modifiers.handle_ascii_2('Z', handle_ctrl),
            other => Us104Key.map_keycode(other, modifiers, handle_ctrl),
        }
    }

    fn get_physical(&self) -> (kind: PhysicalKeyboard) {
        PhysicalKeyboard::Ansi
    }
}

} // verus!
