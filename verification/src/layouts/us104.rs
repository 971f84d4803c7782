//! The layout of the United States.

use vstd::prelude::*;
use crate::event::{key_decoded, modifiers_after, KeyboardLayout};
use crate::modifiers::Modifiers;
use crate::types::{DecodedKey, HandleControl, KeyCode, KeyEvent, KeyState, PhysicalKeyboard};

verus! {

/// A keyboard of the United States with 101 or 104 keys: a wide Enter key
/// with the backslash key above it.
pub struct Us104Key;

/// What a key of the United States layout gives. The keys that have no
/// character give themselves.
pub open spec fn us104_decoded(keycode: KeyCode, modifiers: Modifiers, handle_ctrl: HandleControl) -> DecodedKey {
    match keycode {
        KeyCode::Oem8 => modifiers.symbol2('`', '~'),
        KeyCode::Escape => DecodedKey::Unicode('\u{001B}'),
        KeyCode::Key1 => modifiers.symbol2('1', '!'),
        KeyCode::Key2 => modifiers.symbol2('2', '@'),
        KeyCode::Key3 => modifiers.symbol2('3', '#'),
        KeyCode::Key4 => modifiers.symbol2('4', '$'),
        KeyCode::Key5 => modifiers.symbol2('5', '%'),
        KeyCode::Key6 => modifiers.symbol2('6', '^'),
        KeyCode::Key7 => modifiers.symbol2('7', '&'),
        KeyCode::Key8 => modifiers.symbol2('8', '*'),
        KeyCode::Key9 => modifiers.symbol2('9', '('),
        KeyCode::Key0 => modifiers.symbol2('0', ')'),
        KeyCode::OemMinus => modifiers.symbol2('-', '_'),
        KeyCode::OemPlus => modifiers.symbol2('=', '+'),
        KeyCode::Backspace => DecodedKey::Unicode('\u{0008}'),
        KeyCode::Tab => DecodedKey::Unicode('\u{0009}'),
        KeyCode::Q => modifiers.ascii_2('Q', handle_ctrl),
        KeyCode::W => modifiers.ascii_2('W', handle_ctrl),
        KeyCode::E => modifiers.ascii_2('E', handle_ctrl),
        KeyCode::R => modifiers.ascii_2('R', handle_ctrl),
        KeyCode::T => modifiers.ascii_2('T', handle_ctrl),
        KeyCode::Y => modifiers.ascii_2('Y', handle_ctrl),
        KeyCode::U => modifiers.ascii_2('U', handle_ctrl),
        KeyCode::I => modifiers.ascii_2('I', handle_ctrl),
        KeyCode::O => modifiers.ascii_2('O', handle_ctrl),
        KeyCode::P => modifiers.ascii_2('P', handle_ctrl),
        KeyCode::Oem4 => modifiers.symbol2('[', '{'),
        KeyCode::Oem6 => modifiers.symbol2(']', '}'),
        KeyCode::Oem7 => modifiers.symbol2('\\', '|'),
        KeyCode::A => modifiers.ascii_2('A', handle_ctrl),
        KeyCode::S => modifiers.ascii_2('S', handle_ctrl),
        KeyCode::D => modifiers.ascii_2('D', handle_ctrl),
        KeyCode::F => modifiers.ascii_2('F', handle_ctrl),
        KeyCode::G => modifiers.ascii_2('G', handle_ctrl),
        KeyCode::H => modifiers.ascii_2('H', handle_ctrl),
        KeyCode::J => modifiers.ascii_2('J', handle_ctrl),
        KeyCode::K => modifiers.ascii_2('K', handle_ctrl),
        KeyCode::L => modifiers.ascii_2('L', handle_ctrl),
        KeyCode::Oem1 => modifiers.symbol2(';', ':'),
        KeyCode::Oem3 => modifiers.symbol2('\'', '"'),
        KeyCode::Return => DecodedKey::Unicode('\u{000A}'),
        KeyCode::Z => modifiers.ascii_2('Z', handle_ctrl),
        KeyCode::X => modifiers.ascii_2('X', handle_ctrl),
        KeyCode::C => modifiers.ascii_2('C', handle_ctrl),
        KeyCode::V => modifiers.ascii_2('V', handle_ctrl),
        KeyCode::B => modifiers.ascii_2('B', handle_ctrl),
        KeyCode::N => modifiers.ascii_2('N', handle_ctrl),
        KeyCode::M => modifiers.ascii_2('M', handle_ctrl),
        KeyCode::OemComma => modifiers.symbol2(',', '<'),
        KeyCode::OemPeriod => modifiers.symbol2('.', '>'),
        KeyCode::Oem2 => modifiers.symbol2('/', '?'),
        KeyCode::Spacebar => DecodedKey::Unicode(' '),
        KeyCode::Delete => DecodedKey::Unicode('\u{007f}'),
        KeyCode::NumpadDivide => DecodedKey::Unicode('/'),
        KeyCode::NumpadMultiply => DecodedKey::Unicode('*'),
        KeyCode::NumpadSubtract => DecodedKey::Unicode('-'),
        KeyCode::Numpad7 => modifiers.num_pad('7', KeyCode::Home),
        KeyCode::Numpad8 => modifiers.num_pad('8', KeyCode::ArrowUp),
        KeyCode::Numpad9 => modifiers.num_pad('9', KeyCode::PageUp),
        KeyCode::NumpadAdd => DecodedKey::Unicode('+'),
        KeyCode::Numpad4 => modifiers.num_pad('4', KeyCode::ArrowLeft),
        KeyCode::Numpad5 => DecodedKey::Unicode('5'),
        KeyCode::Numpad6 => modifiers.num_pad('6', KeyCode::ArrowRight),
        KeyCode::Numpad1 => modifiers.num_pad('1', KeyCode::End),
        KeyCode::Numpad2 => modifiers.num_pad('2', KeyCode::ArrowDown),
        KeyCode::Numpad3 => modifiers.num_pad('3', KeyCode::PageDown),
        KeyCode::Numpad0 => modifiers.num_pad('0', KeyCode::Insert),
        KeyCode::NumpadPeriod => modifiers.num_del('.', '\u{007f}'),
        KeyCode::NumpadEnter => DecodedKey::Unicode('\u{000A}'),
        k => DecodedKey::RawKey(k),
    }
}

impl KeyboardLayout for Us104Key {
    open spec fn decoded(&self, keycode: KeyCode, modifiers: Modifiers, handle_ctrl: HandleControl) -> DecodedKey {
        us104_decoded(keycode, modifiers, handle_ctrl)
    }

    open spec fn physical(&self) -> PhysicalKeyboard {
        PhysicalKeyboard::Ansi
    }

    fn map_keycode(&self, keycode: KeyCode, modifiers: &Modifiers, handle_ctrl: HandleControl) -> (key:
        DecodedKey) {
        match keycode {
            KeyCode::Oem8 => modifiers.handle_symbol2('`', '~'),
            KeyCode::Escape => DecodedKey::Unicode('\u{001B}'),
            KeyCode::Key1 => modifiers.handle_symbol2('1', '!'),
            KeyCode::Key2 => modifiers.handle_symbol2('2', '@'),
            KeyCode::Key3 => modifiers.handle_symbol2('3', '#'),
            KeyCode::Key4 => modifiers.handle_symbol2('4', '$'),
            KeyCode::Key5 => modifiers.handle_symbol2('5', '%'),
            KeyCode::Key6 => modifiers.handle_symbol2('6', '^'),
            KeyCode::Key7 => modifiers.handle_symbol2('7', '&'),
            KeyCode::Key8 => modifiers.handle_symbol2('8', '*'),
            KeyCode::Key9 => modifiers.handle_symbol2('9', '('),
            KeyCode::Key0 => modifiers.handle_symbol2('0', ')'),
            KeyCode::OemMinus => modifiers.handle_symbol2('-', '_'),
            KeyCode::OemPlus => modifiers.handle_symbol2('=', '+'),
            KeyCode::Backspace => DecodedKey::Unicode('\u{0008}'),
            KeyCode::Tab => DecodedKey::Unicode('\u{0009}'),
            KeyCode::Q => modifiers.handle_ascii_2('Q', handle_ctrl),
            KeyCode::W => modifiers.handle_ascii_2('W', handle_ctrl),
            KeyCode::E => modifiers.handle_ascii_2('E', handle_ctrl),
            KeyCode::R => modifiers.handle_ascii_2('R', handle_ctrl),
            KeyCode::T => modifiers.handle_ascii_2('T', handle_ctrl),
            KeyCode::Y => modifiers.handle_ascii_2('Y', handle_ctrl),
            KeyCode::U => modifiers.handle_ascii_2('U', handle_ctrl),
            KeyCode::I => modifiers.handle_ascii_2('I', handle_ctrl),
            KeyCode::O => modifiers.handle_ascii_2('O', handle_ctrl),
            KeyCode::P => modifiers.handle_ascii_2('P', handle_ctrl),
            KeyCode::Oem4 => modifiers.handle_symbol2('[', '{'),
            KeyCode::Oem6 => modifiers.handle_symbol2(']', '}'),
            KeyCode::Oem7 => modifiers.handle_symbol2('\\', '|'),
            KeyCode::A => modifiers.handle_ascii_2('A', handle_ctrl),
            KeyCode::S => modifiers.handle_ascii_2('S', handle_ctrl),
            KeyCode::D => modifiers.handle_ascii_2('D', handle_ctrl),
            KeyCode::F => modifiers.handle_ascii_2('F', handle_ctrl),
            KeyCode::G => modifiers.handle_ascii_2('G', handle_ctrl),
            KeyCode::H => modifiers.handle_ascii_2('H', handle_ctrl),
            KeyCode::J => modifiers.handle_ascii_2('J', handle_ctrl),
            KeyCode::K => modifiers.handle_ascii_2('K', handle_ctrl),
            KeyCode::L => modifiers.handle_ascii_2('L', handle_ctrl),
            KeyCode::Oem1 => modifiers.handle_symbol2(';', ':'),
            KeyCode::Oem3 => modifiers.handle_symbol2('\'', '"'),
            KeyCode::Return => DecodedKey::Unicode('\u{000A}'),
            KeyCode::Z => modifiers.handle_ascii_2('Z', handle_ctrl),
            KeyCode::X => modifiers.handle_ascii_2('X', handle_ctrl),
            KeyCode::C => modifiers.handle_ascii_2('C', handle_ctrl),
            KeyCode::V => modifiers.handle_ascii_2('V', handle_ctrl),
            KeyCode::B => modifiers.handle_ascii_2('B', handle_ctrl),
            KeyCode::N => modifiers.handle_ascii_2('N', handle_ctrl),
            KeyCode::M => modifiers.handle_ascii_2('M', handle_ctrl),
            KeyCode::OemComma => modifiers.handle_symbol2(',', '<'),
            KeyCode::OemPeriod => modifiers.handle_symbol2('.', '>'),
            KeyCode::Oem2 => modifiers.handle_symbol2('/', '?'),
            KeyCode::Spacebar => DecodedKey::Unicode(' '),
            KeyCode::Delete => DecodedKey::Unicode('\u{007f}'),
            KeyCode::NumpadDivide => DecodedKey::Unicode('/'),
            KeyCode::NumpadMultiply => DecodedKey::Unicode('*'),
            KeyCode::NumpadSubtract => DecodedKey::Unicode('-'),
            KeyCode::Numpad7 => modifiers.handle_num_pad('7', KeyCode::Home),
            KeyCode::Numpad8 => modifiers.handle_num_pad('8', KeyCode::ArrowUp),
            KeyCode::Numpad9 => modifiers.handle_num_pad('9', KeyCode::PageUp),
            KeyCode::NumpadAdd => DecodedKey::Unicode('+'),
            KeyCode::Numpad4 => modifiers.handle_num_pad('4', KeyCode::ArrowLeft),
            KeyCode::Numpad5 => DecodedKey::Unicode('5'),
            KeyCode::Numpad6 => modifiers.handle_num_pad('6', KeyCode::ArrowRight),
            KeyCode::Numpad1 => modifiers.handle_num_pad('1', KeyCode::End),
            KeyCode::Numpad2 => modifiers.handle_num_pad('2', KeyCode::ArrowDown),
            KeyCode::Numpad3 => modifiers.handle_num_pad('3', KeyCode::PageDown),
            KeyCode::Numpad0 => modifiers.handle_num_pad('0', KeyCode::Insert),
            KeyCode::NumpadPeriod => modifiers.handle_num_del('.', '\u{007f}'),
            KeyCode::NumpadEnter => DecodedKey::Unicode('\u{000A}'),
            k => DecodedKey::RawKey(k),
        }
    }

    fn get_physical(&self) -> (kind: PhysicalKeyboard) {
        PhysicalKeyboard::Ansi
    }
}

/// Shift inverts Caps Lock. With no shift key and no control key held and
/// Caps Lock off, whatever else is held: the letter key A gives `A` after
/// a press of shift, `a` again after its release, `A` after a press of Caps
/// Lock, and `a` once more when shift is pressed on top of that.
pub proof fn lemma_shift_inverts_caps_lock(handle_ctrl: HandleControl, m: Modifiers)
    requires
        !m.is_shifted(),
        !m.is_ctrl(),
        !m.capslock,
    ensures
        ({
            let letter = KeyEvent { code: KeyCode::A, state: KeyState::Down };
            let shifted = modifiers_after(m, KeyEvent { code: KeyCode::LShift, state: KeyState::Down });
            let unshifted = modifiers_after(
                shifted,
                KeyEvent { code: KeyCode::LShift, state: KeyState::Up },
            );
            let locked = modifiers_after(
                unshifted,
                KeyEvent { code: KeyCode::CapsLock, state: KeyState::Down },
            );
            let both = modifiers_after(locked, KeyEvent { code: KeyCode::LShift, state: KeyState::Down });
            &&& key_decoded(Us104Key, handle_ctrl, shifted, letter) == Some(DecodedKey::Unicode('A'))
            &&& key_decoded(Us104Key, handle_ctrl, unshifted, letter) == Some(DecodedKey::Unicode('a'))
            &&& key_decoded(Us104Key, handle_ctrl, locked, letter) == Some(DecodedKey::Unicode('A'))
            &&& key_decoded(Us104Key, handle_ctrl, both, letter) == Some(DecodedKey::Unicode('a'))
        }),
{
}

} // verus!
