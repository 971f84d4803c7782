//! Scancode set 2, as a keyboard sends it over the wire.
//!
//! A key is pressed with its code and released with the prefix `F0` and the
//! same code. The prefixes `E0` and `E1` select the two extended tables,
//! and come before `F0` where a key of those tables is released.

use vstd::prelude::*;
use crate::scancodes::{
    event_or_unknown,
    key_or_unknown,
    ScancodeSet,
    EXTENDED2_KEY_CODE,
    EXTENDED_KEY_CODE,
    KEY_RELEASE_CODE,
};
use crate::types::{Error, KeyCode, KeyEvent, KeyState};

verus! {

/// What the set 2 decoder remembers between two bytes.
#[derive(Debug, PartialEq, Eq, Copy, Clone, Structural)]
pub enum Set2State {
    /// Between two sequences.
    Start,
    /// After the prefix `E0`.
    Extended,
    /// After the prefix `F0`.
    Release,
    /// After the prefixes `E0 F0`.
    ExtendedRelease,
    /// After the prefix `E1`.
    Extended2,
    /// After the prefixes `E1 F0`.
    Extended2Release,
}

/// The decoder of scancode set 2.
pub struct ScancodeSet2 {
    state: Set2State,
}

/// The keys of the plain table of set 2, by code. Two of its entries are
/// no keys but signals of the keyboard: `00` and `AA`.
pub open spec fn set2_key(code: u8) -> Option<KeyCode> {
    match code {
        0x00 => Some(KeyCode::TooManyKeys),
        0x01 => Some(KeyCode::F9),
        0x03 => Some(KeyCode::F5),
        0x04 => Some(KeyCode::F3),
        0x05 => Some(KeyCode::F1),
        0x06 => Some(KeyCode::F2),
        0x07 => Some(KeyCode::F12),
        0x09 => Some(KeyCode::F10),
        0x0A => Some(KeyCode::F8),
        0x0B => Some(KeyCode::F6),
        0x0C => Some(KeyCode::F4),
        0x0D => Some(KeyCode::Tab),
        0x0E => Some(KeyCode::Oem8),
        0x11 => Some(KeyCode::LAlt),
        0x12 => Some(KeyCode::LShift),
        0x13 => Some(KeyCode::Oem11),
        0x14 => Some(KeyCode::LControl),
        0x15 => Some(KeyCode::Q),
        0x16 => Some(KeyCode::Key1),
        0x1A => Some(KeyCode::Z),
        0x1B => Some(KeyCode::S),
        0x1C => Some(KeyCode::A),
        0x1D => Some(KeyCode::W),
        0x1E => Some(KeyCode::Key2),
        0x21 => Some(KeyCode::C),
        0x22 => Some(KeyCode::X),
        0x23 => Some(KeyCode::D),
        0x24 => Some(KeyCode::E),
        0x25 => Some(KeyCode::Key4),
        0x26 => Some(KeyCode::Key3),
        0x29 => Some(KeyCode::Spacebar),
        0x2A => Some(KeyCode::V),
        0x2B => Some(KeyCode::F),
        0x2C => Some(KeyCode::T),
        0x2D => Some(KeyCode::R),
        0x2E => Some(KeyCode::Key5),
        0x31 => Some(KeyCode::N),
        0x32 => Some(KeyCode::B),
        0x33 => Some(KeyCode::H),
        0x34 => Some(KeyCode::G),
        0x35 => Some(KeyCode::Y),
        0x36 => Some(KeyCode::Key6),
        0x3A => Some(KeyCode::M),
        0x3B => Some(KeyCode::J),
        0x3C => Some(KeyCode::U),
        0x3D => Some(KeyCode::Key7),
        0x3E => Some(KeyCode::Key8),
        0x41 => Some(KeyCode::OemComma),
        0x42 => Some(KeyCode::K),
        0x43 => Some(KeyCode::I),
        0x44 => Some(KeyCode::O),
        0x45 => Some(KeyCode::Key0),
        0x46 => Some(KeyCode::Key9),
        0x49 => Some(KeyCode::OemPeriod),
        0x4A => Some(KeyCode::Oem2),
        0x4B => Some(KeyCode::L),
        0x4C => Some(KeyCode::Oem1),
        0x4D => Some(KeyCode::P),
        0x4E => Some(KeyCode::OemMinus),
        0x51 => Some(KeyCode::Oem12),
        0x52 => Some(KeyCode::Oem3),
        0x54 => Some(KeyCode::Oem4),
        0x55 => Some(KeyCode::OemPlus),
        0x58 => Some(KeyCode::CapsLock),
        0x59 => Some(KeyCode::RShift),
        0x5A => Some(KeyCode::Return),
        0x5B => Some(KeyCode::Oem6),
        0x5D => Some(KeyCode::Oem7),
        0x61 => Some(KeyCode::Oem5),
        0x64 => Some(KeyCode::Oem10),
        0x66 => Some(KeyCode::Backspace),
        0x67 => Some(KeyCode::Oem9),
        0x69 => Some(KeyCode::Numpad1),
        0x6A => Some(KeyCode::Oem13),
        0x6B => Some(KeyCode::Numpad4),
        0x6C => Some(KeyCode::Numpad7),
        0x70 => Some(KeyCode::Numpad0),
        0x71 => Some(KeyCode::NumpadPeriod),
        0x72 => Some(KeyCode::Numpad2),
        0x73 => Some(KeyCode::Numpad5),
        0x74 => Some(KeyCode::Numpad6),
        0x75 => Some(KeyCode::Numpad8),
        0x76 => Some(KeyCode::Escape),
        0x77 => Some(KeyCode::NumpadLock),
        0x78 => Some(KeyCode::F11),
        0x79 => Some(KeyCode::NumpadAdd),
        0x7A => Some(KeyCode::Numpad3),
        0x7B => Some(KeyCode::NumpadSubtract),
        0x7C => Some(KeyCode::NumpadMultiply),
        0x7D => Some(KeyCode::Numpad9),
        0x7E => Some(KeyCode::ScrollLock),
        0x7F => Some(KeyCode::SysRq),
        0x83 => Some(KeyCode::F7),
        0xAA => Some(KeyCode::PowerOnTestOk),
        _ => None,
    }
}

/// The keys of set 2 that follow the prefix `E0`, by code.
pub open spec fn set2_extended_key(code: u8) -> Option<KeyCode> {
    match code {
        0x11 => Some(KeyCode::RAltGr),
        0x12 => Some(KeyCode::RAlt2),
        0x14 => Some(KeyCode::RControl),
        0x15 => Some(KeyCode::PrevTrack),
        0x1F => Some(KeyCode::LWin),
        0x21 => Some(KeyCode::VolumeDown),
        0x23 => Some(KeyCode::Mute),
        0x27 => Some(KeyCode::RWin),
        0x2B => Some(KeyCode::Calculator),
        0x2F => Some(KeyCode::Apps),
        0x32 => Some(KeyCode::VolumeUp),
        0x34 => Some(KeyCode::Play),
        0x3A => Some(KeyCode::WWWHome),
        0x3B => Some(KeyCode::Stop),
        0x4A => Some(KeyCode::NumpadDivide),
        0x4D => Some(KeyCode::NextTrack),
        0x5A => Some(KeyCode::NumpadEnter),
        0x69 => Some(KeyCode::End),
        0x6B => Some(KeyCode::ArrowLeft),
        0x6C => Some(KeyCode::Home),
        0x70 => Some(KeyCode::Insert),
        0x71 => Some(KeyCode::Delete),
        0x72 => Some(KeyCode::ArrowDown),
        0x74 => Some(KeyCode::ArrowRight),
        0x75 => Some(KeyCode::ArrowUp),
        0x7A => Some(KeyCode::PageDown),
        0x7C => Some(KeyCode::PrintScreen),
        0x7D => Some(KeyCode::PageUp),
        _ => None,
    }
}

/// The keys of set 2 that follow the prefix `E1`, by code.
pub open spec fn set2_extended2_key(code: u8) -> Option<KeyCode> {
    match code {
        0x14 => Some(KeyCode::RControl2),
        _ => None,
    }
}

/// Whether a key code stands for a signal of the keyboard, which is
/// neither pressed nor released.
pub open spec fn is_signal(key: KeyCode) -> bool {
    key == KeyCode::TooManyKeys || key == KeyCode::PowerOnTestOk
}

/// Whether the release prefix has been seen in a state.
pub open spec fn set2_is_release(state: Set2State) -> bool {
    state == Set2State::Release || state == Set2State::ExtendedRelease || state
        == Set2State::Extended2Release
}

/// The table that set 2 looks a byte up in, by state.
pub open spec fn set2_lookup(state: Set2State, code: u8) -> Option<KeyCode> {
    match state {
        Set2State::Start | Set2State::Release => set2_key(code),
        Set2State::Extended | Set2State::ExtendedRelease => set2_extended_key(code),
        Set2State::Extended2 | Set2State::Extended2Release => set2_extended2_key(code),
    }
}

/// The state of set 2 after a byte: a prefix is remembered, and every
/// other byte ends a sequence.
pub open spec fn set2_next_state(state: Set2State, code: u8) -> Set2State {
    match state {
        Set2State::Start => if code == EXTENDED_KEY_CODE {
            Set2State::Extended
        } else if code == EXTENDED2_KEY_CODE {
            Set2State::Extended2
        } else if code == KEY_RELEASE_CODE {
            Set2State::Release
        } else {
            Set2State::Start
        },
        Set2State::Extended => if code == KEY_RELEASE_CODE {
            Set2State::ExtendedRelease
        } else {
            Set2State::Start
        },
        Set2State::Extended2 => if code == KEY_RELEASE_CODE {
            Set2State::Extended2Release
        } else {
            Set2State::Start
        },
        _ => Set2State::Start,
    }
}

/// The state of the key in the event that ends a sequence of set 2: up
/// after the release prefix; without it down, or single shot for a signal
/// of the plain table.
pub open spec fn set2_key_state(state: Set2State, key: KeyCode) -> KeyState {
    if set2_is_release(state) {
        KeyState::Up
    } else if state == Set2State::Start && is_signal(key) {
        KeyState::SingleShot
    } else {
        KeyState::Down
    }
}

/// The answer of set 2 to a byte: nothing yet for a prefix, else the event
/// of the key that the byte has in the table of the state.
pub open spec fn set2_outcome(state: Set2State, code: u8) -> Result<Option<KeyEvent>, Error> {
    if set2_next_state(state, code) != Set2State::Start {
        Ok(None)
    } else {
        match set2_lookup(state, code) {
            Some(key) => Ok(Some(KeyEvent { code: key, state: set2_key_state(state, key) })),
            None => Err(Error::UnknownKeyCode),
        }
    }
}

impl ScancodeSet2 {
    /// A decoder between two sequences.
    pub fn new() -> (set: ScancodeSet2)
        ensures
            set.state() == Set2State::Start,
    {
        ScancodeSet2 { state: Set2State::Start }
    }

    /// Looks a code up in the plain table.
    pub fn map_scancode(code: u8) -> (key: Result<KeyCode, Error>)
        ensures
            key == key_or_unknown(set2_key(code)),
    {
        match code {
            0x00 => Ok(KeyCode::TooManyKeys),
            0x01 => Ok(KeyCode::F9),
            0x03 => Ok(KeyCode::F5),
            0x04 => Ok(KeyCode::F3),
            0x05 => Ok(KeyCode::F1),
            0x06 => Ok(KeyCode::F2),
            0x07 => Ok(KeyCode::F12),
            0x09 => Ok(KeyCode::F10),
            0x0A => Ok(KeyCode::F8),
            0x0B => Ok(KeyCode::F6),
            0x0C => Ok(KeyCode::F4),
            0x0D => Ok(KeyCode::Tab),
            0x0E => Ok(KeyCode::Oem8),
            0x11 => Ok(KeyCode::LAlt),
            0x12 => Ok(KeyCode::LShift),
            0x13 => Ok(KeyCode::Oem11),
            0x14 => Ok(KeyCode::LControl),
            0x15 => Ok(KeyCode::Q),
            0x16 => Ok(KeyCode::Key1),
            0x1A => Ok(KeyCode::Z),
            0x1B => Ok(KeyCode::S),
            0x1C => Ok(KeyCode::A),
            0x1D => Ok(KeyCode::W),
            0x1E => Ok(KeyCode::Key2),
            0x21 => Ok(KeyCode::C),
            0x22 => Ok(KeyCode::X),
            0x23 => Ok(KeyCode::D),
            0x24 => Ok(KeyCode::E),
            0x25 => Ok(KeyCode::Key4),
            0x26 => Ok(KeyCode::Key3),
            0x29 => Ok(KeyCode::Spacebar),
            0x2A => Ok(KeyCode::V),
            0x2B => Ok(KeyCode::F),
            0x2C => Ok(KeyCode::T),
            0x2D => Ok(KeyCode::R),
            0x2E => Ok(KeyCode::Key5),
            0x31 => Ok(KeyCode::N),
            0x32 => Ok(KeyCode::B),
            0x33 => Ok(KeyCode::H),
            0x34 => Ok(KeyCode::G),
            0x35 => Ok(KeyCode::Y),
            0x36 => Ok(KeyCode::Key6),
            0x3A => Ok(KeyCode::M),
            0x3B => Ok(KeyCode::J),
            0x3C => Ok(KeyCode::U),
            0x3D => Ok(KeyCode::Key7),
            0x3E => Ok(KeyCode::Key8),
            0x41 => Ok(KeyCode::OemComma),
            0x42 => Ok(KeyCode::K),
            0x43 => Ok(KeyCode::I),
            0x44 => Ok(KeyCode::O),
            0x45 => Ok(KeyCode::Key0),
            0x46 => Ok(KeyCode::Key9),
            0x49 => Ok(KeyCode::OemPeriod),
            0x4A => Ok(KeyCode::Oem2),
            0x4B => Ok(KeyCode::L),
            0x4C => Ok(KeyCode::Oem1),
            0x4D => Ok(KeyCode::P),
            0x4E => Ok(KeyCode::OemMinus),
            0x51 => Ok(KeyCode::Oem12),
            0x52 => Ok(KeyCode::Oem3),
            0x54 => Ok(KeyCode::Oem4),
            0x55 => Ok(KeyCode::OemPlus),
            0x58 => Ok(KeyCode::CapsLock),
            0x59 => Ok(KeyCode::RShift),
            0x5A => Ok(KeyCode::Return),
            0x5B => Ok(KeyCode::Oem6),
            0x5D => Ok(KeyCode::Oem7),
            0x61 => Ok(KeyCode::Oem5),
            0x64 => Ok(KeyCode::Oem10),
            0x66 => Ok(KeyCode::Backspace),
            0x67 => Ok(KeyCode::Oem9),
            0x69 => Ok(KeyCode::Numpad1),
            0x6A => Ok(KeyCode::Oem13),
            0x6B => Ok(KeyCode::Numpad4),
            0x6C => Ok(KeyCode::Numpad7),
            0x70 => Ok(KeyCode::Numpad0),
            0x71 => Ok(KeyCode::NumpadPeriod),
            0x72 => Ok(KeyCode::Numpad2),
            0x73 => Ok(KeyCode::Numpad5),
            0x74 => Ok(KeyCode::Numpad6),
            0x75 => Ok(KeyCode::Numpad8),
            0x76 => Ok(KeyCode::Escape),
            0x77 => Ok(KeyCode::NumpadLock),
            0x78 => Ok(KeyCode::F11),
            0x79 => Ok(KeyCode::NumpadAdd),
            0x7A => Ok(KeyCode::Numpad3),
            0x7B => Ok(KeyCode::NumpadSubtract),
            0x7C => Ok(KeyCode::NumpadMultiply),
            0x7D => Ok(KeyCode::Numpad9),
            0x7E => Ok(KeyCode::ScrollLock),
            0x7F => Ok(KeyCode::SysRq),
            0x83 => Ok(KeyCode::F7),
            0xAA => Ok(KeyCode::PowerOnTestOk),
            _ => Err(Error::UnknownKeyCode),
        }
    }

    /// Looks a code up in the table of the prefix `E0`.
    pub fn map_extended_scancode(code: u8) -> (key: Result<KeyCode, Error>)
        ensures
            key == key_or_unknown(set2_extended_key(code)),
    {
        match code {
            0x11 => Ok(KeyCode::RAltGr),
            0x12 => Ok(KeyCode::RAlt2),
            0x14 => Ok(KeyCode::RControl),
            0x15 => Ok(KeyCode::PrevTrack),
            0x1F => Ok(KeyCode::LWin),
            0x21 => Ok(KeyCode::VolumeDown),
            0x23 => Ok(KeyCode::Mute),
            0x27 => Ok(KeyCode::RWin),
            0x2B => Ok(KeyCode::Calculator),
            0x2F => Ok(KeyCode::Apps),
            0x32 => Ok(KeyCode::VolumeUp),
            0x34 => Ok(KeyCode::Play),
            0x3A => Ok(KeyCode::WWWHome),
            0x3B => Ok(KeyCode::Stop),
            0x4A => Ok(KeyCode::NumpadDivide),
            0x4D => Ok(KeyCode::NextTrack),
            0x5A => Ok(KeyCode::NumpadEnter),
            0x69 => Ok(KeyCode::End),
            0x6B => Ok(KeyCode::ArrowLeft),
            0x6C => Ok(KeyCode::Home),
            0x70 => Ok(KeyCode::Insert),
            0x71 => Ok(KeyCode::Delete),
            0x72 => Ok(KeyCode::ArrowDown),
            0x74 => Ok(KeyCode::ArrowRight),
            0x75 => Ok(KeyCode::ArrowUp),
            0x7A => Ok(KeyCode::PageDown),
            0x7C => Ok(KeyCode::PrintScreen),
            0x7D => Ok(KeyCode::PageUp),
            _ => Err(Error::UnknownKeyCode),
        }
    }

    /// Looks a code up in the table of the prefix `E1`.
    pub fn map_extended2_scancode(code: u8) -> (key: Result<KeyCode, Error>)
        ensures
            key == key_or_unknown(set2_extended2_key(code)),
    {
        match code {
            0x14 => Ok(KeyCode::RControl2),
            _ => Err(Error::UnknownKeyCode),
        }
    }
}

impl ScancodeSet for ScancodeSet2 {
    type State = Set2State;

    closed spec fn state(&self) -> Set2State {
        self.state
    }

    open spec fn outcome(state: Set2State, code: u8) -> Result<Option<KeyEvent>, Error> {
        set2_outcome(state, code)
    }

    open spec fn next_state(state: Set2State, code: u8) -> Set2State {
        set2_next_state(state, code)
    }

    fn advance_state(&mut self, code: u8) -> (event: Result<Option<KeyEvent>, Error>) {
        match self.state {
            Set2State::Start => {
                if code == EXTENDED_KEY_CODE {
                    self.state = Set2State::Extended;
                    Ok(None)
                } else if code == EXTENDED2_KEY_CODE {
                    self.state = Set2State::Extended2;
                    Ok(None)
                } else if code == KEY_RELEASE_CODE {
                    self.state = Set2State::Release;
                    Ok(None)
                } else {
                    match Self::map_scancode(code) {
                        Ok(KeyCode::TooManyKeys) => Ok(
                            Some(KeyEvent::new(KeyCode::TooManyKeys, KeyState::SingleShot)),
                        ),
                        Ok(KeyCode::PowerOnTestOk) => Ok(
                            Some(KeyEvent::new(KeyCode::PowerOnTestOk, KeyState::SingleShot)),
                        ),
                        Ok(key) => Ok(Some(KeyEvent::new(key, KeyState::Down))),
                        Err(e) => Err(e),
                    }
                }
            },
            Set2State::Release => {
                self.state = Set2State::Start;
                match Self::map_scancode(code) {
                    Ok(key) => Ok(Some(KeyEvent::new(key, KeyState::Up))),
                    Err(e) => Err(e),
                }
            },
            Set2State::Extended => {
                if code == KEY_RELEASE_CODE {
                    self.state = Set2State::ExtendedRelease;
                    Ok(None)
                } else {
                    self.state = Set2State::Start;
                    match Self::map_extended_scancode(code) {
                        Ok(key) => Ok(Some(KeyEvent::new(key, KeyState::Down))),
                        Err(e) => Err(e),
                    }
                }
            },
            Set2State::ExtendedRelease => {
                self.state = Set2State::Start;
                match Self::map_extended_scancode(code) {
                    Ok(key) => Ok(Some(KeyEvent::new(key, KeyState::Up))),
                    Err(e) => Err(e),
                }
            },
            Set2State::Extended2 => {
                if code == KEY_RELEASE_CODE {
                    self.state = Set2State::Extended2Release;
                    Ok(None)
                } else {
                    self.state = Set2State::Start;
                    match Self::map_extended2_scancode(code) {
                        Ok(key) => Ok(Some(KeyEvent::new(key, KeyState::Down))),
                        Err(e) => Err(e),
                    }
                }
            },
            Set2State::Extended2Release => {
                self.state = Set2State::Start;
                match Self::map_extended2_scancode(code) {
                    Ok(key) => Ok(Some(KeyEvent::new(key, KeyState::Up))),
                    Err(e) => Err(e),
                }
            },
        }
    }
}

impl Default for ScancodeSet2 {
    fn default() -> (set: ScancodeSet2)
        ensures
            set.state() == Set2State::Start,
    {
        ScancodeSet2::new()
    }
}

/// The state in which a byte is looked up as a release, for each state in
/// which it is looked up as a press.
pub open spec fn set2_released(state: Set2State) -> Set2State {
    match state {
        Set2State::Start => Set2State::Release,
        Set2State::Extended => Set2State::ExtendedRelease,
        Set2State::Extended2 => Set2State::Extended2Release,
        other => other,
    }
}

/// The release prefix turns a press into a release. In a state without
/// it, the prefix alone gives no event yet; the byte after it is a release
/// of the key that the same byte, without the prefix, is a press of. The
/// two signals of the plain table are set aside: alone they are no press.
pub proof fn lemma_set2_release_prefix(state: Set2State, code: u8)
    requires
        !set2_is_release(state),
        set2_lookup(state, code) is Some,
        !(state == Set2State::Start && is_signal(set2_lookup(state, code).unwrap())),
    ensures
        set2_outcome(state, KEY_RELEASE_CODE) == Ok::<Option<KeyEvent>, Error>(None),
        set2_next_state(state, KEY_RELEASE_CODE) == set2_released(state),
        set2_outcome(set2_released(state), code) == Ok::<Option<KeyEvent>, Error>(
            Some(KeyEvent { code: set2_lookup(state, code).unwrap(), state: KeyState::Up }),
        ),
        set2_outcome(state, code) == Ok::<Option<KeyEvent>, Error>(
            Some(KeyEvent { code: set2_lookup(state, code).unwrap(), state: KeyState::Down }),
        ),
        set2_next_state(set2_released(state), code) == Set2State::Start,
        set2_next_state(state, code) == Set2State::Start,
{
}

/// The two signals of the plain table: alone each is a single shot, and
/// after the release prefix each is answered as a release.
pub proof fn lemma_set2_signals(code: u8)
    requires
        code == 0x00 || code == 0xAA,
    ensures
        set2_key(code) is Some,
        is_signal(set2_key(code).unwrap()),
        set2_outcome(Set2State::Start, code) == Ok::<Option<KeyEvent>, Error>(
            Some(KeyEvent { code: set2_key(code).unwrap(), state: KeyState::SingleShot }),
        ),
        set2_outcome(Set2State::Release, code) == Ok::<Option<KeyEvent>, Error>(
            Some(KeyEvent { code: set2_key(code).unwrap(), state: KeyState::Up }),
        ),
{
}

/// The decoder is between two sequences after every byte but a prefix: an
/// event and an error both end the sequence.
pub proof fn lemma_set2_sequence_ends(state: Set2State, code: u8)
    ensures
        set2_outcome(state, code) != Ok::<Option<KeyEvent>, Error>(None) <==> set2_next_state(state, code)
            == Set2State::Start,
{
}

/// An unknown byte does no lasting harm: whatever the state was, the byte
/// after the error is answered as a fresh decoder would answer it.
pub proof fn lemma_set2_error_resets(state: Set2State, code: u8, next: u8)
    requires
        set2_outcome(state, code) is Err,
    ensures
        set2_outcome(state, code) == Err::<Option<KeyEvent>, Error>(Error::UnknownKeyCode),
        set2_next_state(state, code) == Set2State::Start,
        set2_outcome(set2_next_state(state, code), next) == set2_outcome(Set2State::Start, next),
{
}

} // verus!
