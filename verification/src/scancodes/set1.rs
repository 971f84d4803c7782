//! Scancode set 1, as the keyboard controller of a PC hands it on.
//!
//! A key is pressed with its code and released with the same code and the
//! top bit set. The prefixes `E0` and `E1` select the two extended tables
//! for the one byte that follows.

use vstd::prelude::*;
use crate::scancodes::{event_or_unknown, key_or_unknown, ScancodeSet, EXTENDED2_KEY_CODE, EXTENDED_KEY_CODE};
use crate::types::{Error, KeyCode, KeyEvent, KeyState};

verus! {

/// What the set 1 decoder remembers between two bytes.
#[derive(Debug, PartialEq, Eq, Copy, Clone, Structural)]
pub enum Set1State {
    /// Between two sequences.
    Start,
    /// After the prefix `E0`.
    Extended,
    /// After the prefix `E1`.
    Extended2,
}

/// The decoder of scancode set 1.
pub struct ScancodeSet1 {
    state: Set1State,
}

/// The keys of the plain table of set 1, by make code.
pub open spec fn set1_key(code: u8) -> Option<KeyCode> {
    match code {
        0x01 => Some(KeyCode::Escape),
        0x02 => Some(KeyCode::Key1),
        0x03 => Some(KeyCode::Key2),
        0x04 => Some(KeyCode::Key3),
        0x05 => Some(KeyCode::Key4),
        0x06 => Some(KeyCode::Key5),
        0x07 => Some(KeyCode::Key6),
        0x08 => Some(KeyCode::Key7),
        0x09 => Some(KeyCode::Key8),
        0x0A => Some(KeyCode::Key9),
        0x0B => Some(KeyCode::Key0),
        0x0C => Some(KeyCode::OemMinus),
        0x0D => Some(KeyCode::OemPlus),
        0x0E => Some(KeyCode::Backspace),
        0x0F => Some(KeyCode::Tab),
        0x10 => Some(KeyCode::Q),
        0x11 => Some(KeyCode::W),
        0x12 => Some(KeyCode::E),
        0x13 => Some(KeyCode::R),
        0x14 => Some(KeyCode::T),
        0x15 => Some(KeyCode::Y),
        0x16 => Some(KeyCode::U),
        0x17 => Some(KeyCode::I),
        0x18 => Some(KeyCode::O),
        0x19 => Some(KeyCode::P),
        0x1A => Some(KeyCode::Oem4),
        0x1B => Some(KeyCode::Oem6),
        0x1C => Some(KeyCode::Return),
        0x1D => Some(KeyCode::LControl),
        0x1E => Some(KeyCode::A),
        0x1F => Some(KeyCode::S),
        0x20 => Some(KeyCode::D),
        0x21 => Some(KeyCode::F),
        0x22 => Some(KeyCode::G),
        0x23 => Some(KeyCode::H),
        0x24 => Some(KeyCode::J),
        0x25 => Some(KeyCode::K),
        0x26 => Some(KeyCode::L),
        0x27 => Some(KeyCode::Oem1),
        0x28 => Some(KeyCode::Oem3),
        0x29 => Some(KeyCode::Oem8),
        0x2A => Some(KeyCode::LShift),
        0x2B => Some(KeyCode::Oem7),
        0x2C => Some(KeyCode::Z),
        0x2D => Some(KeyCode::X),
        0x2E => Some(KeyCode::C),
        0x2F => Some(KeyCode::V),
        0x30 => Some(KeyCode::B),
        0x31 => Some(KeyCode::N),
        0x32 => Some(KeyCode::M),
        0x33 => Some(KeyCode::OemComma),
        0x34 => Some(KeyCode::OemPeriod),
        0x35 => Some(KeyCode::Oem2),
        0x36 => Some(KeyCode::RShift),
        0x37 => Some(KeyCode::NumpadMultiply),
        0x38 => Some(KeyCode::LAlt),
        0x39 => Some(KeyCode::Spacebar),
        0x3A => Some(KeyCode::CapsLock),
        0x3B => Some(KeyCode::F1),
        0x3C => Some(KeyCode::F2),
        0x3D => Some(KeyCode::F3),
        0x3E => Some(KeyCode::F4),
        0x3F => Some(KeyCode::F5),
        0x40 => Some(KeyCode::F6),
        0x41 => Some(KeyCode::F7),
        0x42 => Some(KeyCode::F8),
        0x43 => Some(KeyCode::F9),
        0x44 => Some(KeyCode::F10),
        0x45 => Some(KeyCode::NumpadLock),
        0x46 => Some(KeyCode::ScrollLock),
        0x47 => Some(KeyCode::Numpad7),
        0x48 => Some(KeyCode::Numpad8),
        0x49 => Some(KeyCode::Numpad9),
        0x4A => Some(KeyCode::NumpadSubtract),
        0x4B => Some(KeyCode::Numpad4),
        0x4C => Some(KeyCode::Numpad5),
        0x4D => Some(KeyCode::Numpad6),
        0x4E => Some(KeyCode::NumpadAdd),
        0x4F => Some(KeyCode::Numpad1),
        0x50 => Some(KeyCode::Numpad2),
        0x51 => Some(KeyCode::Numpad3),
        0x52 => Some(KeyCode::Numpad0),
        0x53 => Some(KeyCode::NumpadPeriod),
        0x54 => Some(KeyCode::SysRq),
        0x56 => Some(KeyCode::Oem5),
        0x57 => Some(KeyCode::F11),
        0x58 => Some(KeyCode::F12),
        _ => None,
    }
}

/// The keys of set 1 that follow the prefix `E0`, by make code.
pub open spec fn set1_extended_key(code: u8) -> Option<KeyCode> {
    match code {
        0x10 => Some(KeyCode::PrevTrack),
        0x19 => Some(KeyCode::NextTrack),
        0x1C => Some(KeyCode::NumpadEnter),
        0x1D => Some(KeyCode::RControl),
        0x20 => Some(KeyCode::Mute),
        0x21 => Some(KeyCode::Calculator),
        0x22 => Some(KeyCode::Play),
        0x24 => Some(KeyCode::Stop),
        0x2A => Some(KeyCode::RAlt2),
        0x2E => Some(KeyCode::VolumeDown),
        0x30 => Some(KeyCode::VolumeUp),
        0x32 => Some(KeyCode::WWWHome),
        0x35 => Some(KeyCode::NumpadDivide),
        0x37 => Some(KeyCode::PrintScreen),
        0x38 => Some(KeyCode::RAltGr),
        0x47 => Some(KeyCode::Home),
        0x48 => Some(KeyCode::ArrowUp),
        0x49 => Some(KeyCode::PageUp),
        0x4B => Some(KeyCode::ArrowLeft),
        0x4D => Some(KeyCode::ArrowRight),
        0x4F => Some(KeyCode::End),
        0x50 => Some(KeyCode::ArrowDown),
        0x51 => Some(KeyCode::PageDown),
        0x52 => Some(KeyCode::Insert),
        0x53 => Some(KeyCode::Delete),
        0x5B => Some(KeyCode::LWin),
        0x5C => Some(KeyCode::RWin),
        0x5D => Some(KeyCode::Apps),
        0x70 => Some(KeyCode::Oem11),
        0x73 => Some(KeyCode::Oem12),
        0x79 => Some(KeyCode::Oem10),
        0x7B => Some(KeyCode::Oem9),
        0x7D => Some(KeyCode::Oem13),
        _ => None,
    }
}

/// The keys of set 1 that follow the prefix `E1`, by make code.
pub open spec fn set1_extended2_key(code: u8) -> Option<KeyCode> {
    match code {
        0x1D => Some(KeyCode::RControl2),
        _ => None,
    }
}

/// Whether a byte of set 1 has its top bit set, which marks a release.
pub open spec fn set1_is_break(code: u8) -> bool {
    code >= 0x80
}

/// The make code in a byte of set 1: the byte without its top bit.
pub open spec fn set1_make_code(code: u8) -> u8 {
    if code >= 0x80 {
        (code - 0x80) as u8
    } else {
        code
    }
}

/// Whether a byte fed to set 1 in the given state is a prefix, which
/// completes no sequence.
pub open spec fn set1_is_prefix(state: Set1State, code: u8) -> bool {
    state == Set1State::Start && (code == EXTENDED_KEY_CODE || code == EXTENDED2_KEY_CODE)
}

/// The table that set 1 looks a byte up in, by state.
pub open spec fn set1_lookup(state: Set1State, make_code: u8) -> Option<KeyCode> {
    match state {
        Set1State::Start => set1_key(make_code),
        Set1State::Extended => set1_extended_key(make_code),
        Set1State::Extended2 => set1_extended2_key(make_code),
    }
}

/// The state of set 1 after a byte: a prefix is remembered for one byte,
/// and every other byte ends a sequence.
pub open spec fn set1_next_state(state: Set1State, code: u8) -> Set1State {
    if state == Set1State::Start && code == EXTENDED_KEY_CODE {
        Set1State::Extended
    } else if state == Set1State::Start && code == EXTENDED2_KEY_CODE {
        Set1State::Extended2
    } else {
        Set1State::Start
    }
}

/// The answer of set 1 to a byte: nothing yet for a prefix, else the key
/// that the make code has in the table of the state, up if the top bit is
/// set and down if not.
pub open spec fn set1_outcome(state: Set1State, code: u8) -> Result<Option<KeyEvent>, Error> {
    if set1_is_prefix(state, code) {
        Ok(None)
    } else {
        event_or_unknown(
            set1_lookup(state, set1_make_code(code)),
            if set1_is_break(code) {
                KeyState::Up
            } else {
                KeyState::Down
            },
        )
    }
}

impl ScancodeSet1 {
    /// A decoder between two sequences.
    pub fn new() -> (set: ScancodeSet1)
        ensures
            set.state() == Set1State::Start,
    {
        ScancodeSet1 { state: Set1State::Start }
    }

    /// Looks a make code up in the plain table.
    pub fn map_scancode(code: u8) -> (key: Result<KeyCode, Error>)
        ensures
            key == key_or_unknown(set1_key(code)),
    {
        match code {
            0x01 => Ok(KeyCode::Escape),
            0x02 => Ok(KeyCode::Key1),
            0x03 => Ok(KeyCode::Key2),
            0x04 => Ok(KeyCode::Key3),
            0x05 => Ok(KeyCode::Key4),
            0x06 => Ok(KeyCode::Key5),
            0x07 => Ok(KeyCode::Key6),
            0x08 => Ok(KeyCode::Key7),
            0x09 => Ok(KeyCode::Key8),
            0x0A => Ok(KeyCode::Key9),
            0x0B => Ok(KeyCode::Key0),
            0x0C => Ok(KeyCode::OemMinus),
            0x0D => Ok(KeyCode::OemPlus),
            0x0E => Ok(KeyCode::Backspace),
            0x0F => Ok(KeyCode::Tab),
            0x10 => Ok(KeyCode::Q),
            0x11 => Ok(KeyCode::W),
            0x12 => Ok(KeyCode::E),
            0x13 => Ok(KeyCode::R),
            0x14 => Ok(KeyCode::T),
            0x15 => Ok(KeyCode::Y),
            0x16 => Ok(KeyCode::U),
            0x17 => Ok(KeyCode::I),
            0x18 => Ok(KeyCode::O),
            0x19 => Ok(KeyCode::P),
            0x1A => Ok(KeyCode::Oem4),
            0x1B => Ok(KeyCode::Oem6),
            0x1C => Ok(KeyCode::Return),
            0x1D => Ok(KeyCode::LControl),
            0x1E => Ok(KeyCode::A),
            0x1F => Ok(KeyCode::S),
            0x20 => Ok(KeyCode::D),
            0x21 => Ok(KeyCode::F),
            0x22 => Ok(KeyCode::G),
            0x23 => Ok(KeyCode::H),
            0x24 => Ok(KeyCode::J),
            0x25 => Ok(KeyCode::K),
            0x26 => Ok(KeyCode::L),
            0x27 => Ok(KeyCode::Oem1),
            0x28 => Ok(KeyCode::Oem3),
            0x29 => Ok(KeyCode::Oem8),
            0x2A => Ok(KeyCode::LShift),
            0x2B => Ok(KeyCode::Oem7),
            0x2C => Ok(KeyCode::Z),
            0x2D => Ok(KeyCode::X),
            0x2E => Ok(KeyCode::C),
            0x2F => Ok(KeyCode::V),
            0x30 => Ok(KeyCode::B),
            0x31 => Ok(KeyCode::N),
            0x32 => Ok(KeyCode::M),
            0x33 => Ok(KeyCode::OemComma),
            0x34 => Ok(KeyCode::OemPeriod),
            0x35 => Ok(KeyCode::Oem2),
            0x36 => Ok(KeyCode::RShift),
            0x37 => Ok(KeyCode::NumpadMultiply),
            0x38 => Ok(KeyCode::LAlt),
            0x39 => Ok(KeyCode::Spacebar),
            0x3A => Ok(KeyCode::CapsLock),
            0x3B => Ok(KeyCode::F1),
            0x3C => Ok(KeyCode::F2),
            0x3D => Ok(KeyCode::F3),
            0x3E => Ok(KeyCode::F4),
            0x3F => Ok(KeyCode::F5),
            0x40 => Ok(KeyCode::F6),
            0x41 => Ok(KeyCode::F7),
            0x42 => Ok(KeyCode::F8),
            0x43 => Ok(KeyCode::F9),
            0x44 => Ok(KeyCode::F10),
            0x45 => Ok(KeyCode::NumpadLock),
            0x46 => Ok(KeyCode::ScrollLock),
            0x47 => Ok(KeyCode::Numpad7),
            0x48 => Ok(KeyCode::Numpad8),
            0x49 => Ok(KeyCode::Numpad9),
            0x4A => Ok(KeyCode::NumpadSubtract),
            0x4B => Ok(KeyCode::Numpad4),
            0x4C => Ok(KeyCode::Numpad5),
            0x4D => Ok(KeyCode::Numpad6),
            0x4E => Ok(KeyCode::NumpadAdd),
            0x4F => Ok(KeyCode::Numpad1),
            0x50 => Ok(KeyCode::Numpad2),
            0x51 => Ok(KeyCode::Numpad3),
            0x52 => Ok(KeyCode::Numpad0),
            0x53 => Ok(KeyCode::NumpadPeriod),
            0x54 => Ok(KeyCode::SysRq),
            0x56 => Ok(KeyCode::Oem5),
            0x57 => Ok(KeyCode::F11),
            0x58 => Ok(KeyCode::F12),
            _ => Err(Error::UnknownKeyCode),
        }
    }

    /// Looks a make code up in the table of the prefix `E0`.
    pub fn map_extended_scancode(code: u8) -> (key: Result<KeyCode, Error>)
        ensures
            key == key_or_unknown(set1_extended_key(code)),
    {
        match code {
            0x10 => Ok(KeyCode::PrevTrack),
            0x19 => Ok(KeyCode::NextTrack),
            0x1C => Ok(KeyCode::NumpadEnter),
            0x1D => Ok(KeyCode::RControl),
            0x20 => Ok(KeyCode::Mute),
            0x21 => Ok(KeyCode::Calculator),
            0x22 => Ok(KeyCode::Play),
            0x24 => Ok(KeyCode::Stop),
            0x2A => Ok(KeyCode::RAlt2),
            0x2E => Ok(KeyCode::VolumeDown),
            0x30 => Ok(KeyCode::VolumeUp),
            0x32 => Ok(KeyCode::WWWHome),
            0x35 => Ok(KeyCode::NumpadDivide),
            0x37 => Ok(KeyCode::PrintScreen),
            0x38 => Ok(KeyCode::RAltGr),
            0x47 => Ok(KeyCode::Home),
            0x48 => Ok(KeyCode::ArrowUp),
            0x49 => Ok(KeyCode::PageUp),
            0x4B => Ok(KeyCode::ArrowLeft),
            0x4D => Ok(KeyCode::ArrowRight),
            0x4F => Ok(KeyCode::End),
            0x50 => Ok(KeyCode::ArrowDown),
            0x51 => Ok(KeyCode::PageDown),
            0x52 => Ok(KeyCode::Insert),
            0x53 => Ok(KeyCode::Delete),
            0x5B => Ok(KeyCode::LWin),
            0x5C => Ok(KeyCode::RWin),
            0x5D => Ok(KeyCode::Apps),
            0x70 => Ok(KeyCode::Oem11),
            0x73 => Ok(KeyCode::Oem12),
            0x79 => Ok(KeyCode::Oem10),
            0x7B => Ok(KeyCode::Oem9),
            0x7D => Ok(KeyCode::Oem13),
            _ => Err(Error::UnknownKeyCode),
        }
    }

    /// Looks a make code up in the table of the prefix `E1`.
    pub fn map_extended2_scancode(code: u8) -> (key: Result<KeyCode, Error>)
        ensures
            key == key_or_unknown(set1_extended2_key(code)),
    {
        match code {
            0x1D => Ok(KeyCode::RControl2),
            _ => Err(Error::UnknownKeyCode),
        }
    }
}

impl ScancodeSet for ScancodeSet1 {
    type State = Set1State;

    closed spec fn state(&self) -> Set1State {
        self.state
    }

    open spec fn outcome(state: Set1State, code: u8) -> Result<Option<KeyEvent>, Error> {
        set1_outcome(state, code)
    }

    open spec fn next_state(state: Set1State, code: u8) -> Set1State {
        set1_next_state(state, code)
    }

    fn advance_state(&mut self, code: u8) -> (event: Result<Option<KeyEvent>, Error>) {
        match self.state {
            Set1State::Start => {
                if code == EXTENDED_KEY_CODE {
                    self.state = Set1State::Extended;
                    Ok(None)
                } else if code == EXTENDED2_KEY_CODE {
                    self.state = Set1State::Extended2;
                    Ok(None)
                } else if code >= 0x80 {
                    match Self::map_scancode(code - 0x80) {
                        Ok(key) => Ok(Some(KeyEvent::new(key, KeyState::Up))),
                        Err(e) => Err(e),
                    }
                } else {
                    match Self::map_scancode(code) {
                        Ok(key) => Ok(Some(KeyEvent::new(key, KeyState::Down))),
                        Err(e) => Err(e),
                    }
                }
            },
            Set1State::Extended => {
                self.state = Set1State::Start;
                if code >= 0x80 {
                    match Self::map_extended_scancode(code - 0x80) {
                        Ok(key) => Ok(Some(KeyEvent::new(key, KeyState::Up))),
                        Err(e) => Err(e),
                    }
                } else {
                    match Self::map_extended_scancode(code) {
                        Ok(key) => Ok(Some(KeyEvent::new(key, KeyState::Down))),
                        Err(e) => Err(e),
                    }
                }
            },
            Set1State::Extended2 => {
                self.state = Set1State::Start;
                if code >= 0x80 {
                    match Self::map_extended2_scancode(code - 0x80) {
                        Ok(key) => Ok(Some(KeyEvent::new(key, KeyState::Up))),
                        Err(e) => Err(e),
                    }
                } else {
                    match Self::map_extended2_scancode(code) {
                        Ok(key) => Ok(Some(KeyEvent::new(key, KeyState::Down))),
                        Err(e) => Err(e),
                    }
                }
            },
        }
    }
}

impl Default for ScancodeSet1 {
    fn default() -> (set: ScancodeSet1)
        ensures
            set.state() == Set1State::Start,
    {
        ScancodeSet1::new()
    }
}

/// Make and break mirror each other. Where a make code has a key in the
/// table of a state, the code alone is a press of that key and the code
/// with its top bit set is a release of the same key. Both end the
/// sequence.
pub proof fn lemma_set1_make_break_symmetry(state: Set1State, make: u8)
    requires
        make < 0x80,
        set1_lookup(state, make) is Some,
    ensures
        set1_outcome(state, make) == Ok::<Option<KeyEvent>, Error>(
            Some(KeyEvent { code: set1_lookup(state, make).unwrap(), state: KeyState::Down }),
        ),
        set1_outcome(state, make | 0x80) == Ok::<Option<KeyEvent>, Error>(
            Some(KeyEvent { code: set1_lookup(state, make).unwrap(), state: KeyState::Up }),
        ),
        set1_next_state(state, make) == Set1State::Start,
        set1_next_state(state, make | 0x80) == Set1State::Start,
{
    assert(make | 0x80 == make + 0x80) by (bit_vector)
        requires
            make < 0x80,
    ;
}

/// The decoder is between two sequences after every byte but a prefix: an
/// event and an error both end the sequence.
pub proof fn lemma_set1_sequence_ends(state: Set1State, code: u8)
    ensures
        set1_outcome(state, code) != Ok::<Option<KeyEvent>, Error>(None) ==> set1_next_state(state, code)
            == Set1State::Start,
        set1_outcome(state, code) == Ok::<Option<KeyEvent>, Error>(None) <==> set1_is_prefix(state, code),
{
}

/// An unknown byte does no lasting harm: whatever the state was, the byte
/// after the error is answered as a fresh decoder would answer it.
pub proof fn lemma_set1_error_resets(state: Set1State, code: u8, next: u8)
    requires
        set1_outcome(state, code) is Err,
    ensures
        set1_outcome(state, code) == Err::<Option<KeyEvent>, Error>(Error::UnknownKeyCode),
        set1_next_state(state, code) == Set1State::Start,
        set1_outcome(set1_next_state(state, code), next) == set1_outcome(Set1State::Start, next),
{
}

} // verus!
