//! The French layout.

use vstd::prelude::*;
use crate::event::KeyboardLayout;
use crate::modifiers::Modifiers;
use crate::types::{DecodedKey, HandleControl, KeyCode, PhysicalKeyboard};

verus! {

/// A French keyboard with 102 or 105 keys.
pub struct Azerty;

/// What a key of the French layout gives. The keys that have no character
/// give themselves.
pub open spec fn azerty_decoded(keycode: KeyCode, modifiers: Modifiers, handle_ctrl: HandleControl) -> DecodedKey {
    match keycode {
        KeyCode::Escape => DecodedKey::Unicode('\u{001B}'),
        KeyCode::Oem8 => {
            if modifiers.is_shifted() {
                DecodedKey::Unicode('³')
            } else if modifiers.is_altgr() {
                DecodedKey::Unicode('¹')
            } else {
                DecodedKey::Unicode('²')
            }
        },
        KeyCode::Oem5 => {
            if modifiers.is_shifted() {
                if modifiers.is_altgr() {
                    DecodedKey::Unicode('≥')
                } else {
                    DecodedKey::Unicode('>')
                }
            } else {
                if modifiers.is_altgr() {
                    DecodedKey::Unicode('≤')
                } else {
                    DecodedKey::Unicode('<')
                }
            }
        },
        KeyCode::Key1 => modifiers.symbol2('&', '1'),
        KeyCode::Key2 => {
            if modifiers.is_shifted() {
                DecodedKey::Unicode('2')
            } else if modifiers.is_altgr() {
                DecodedKey::Unicode('~')
            } else {
                DecodedKey::Unicode('é')
            }
        },
        KeyCode::Key3 => {
            if modifiers.is_shifted() {
                DecodedKey::Unicode('3')
            } else if modifiers.is_altgr() {
                DecodedKey::Unicode('#')
            } else {
                DecodedKey::Unicode('"')
            }
        },
        KeyCode::Key4 => {
            if modifiers.is_shifted() {
                DecodedKey::Unicode('4')
            } else if modifiers.is_altgr() {
                DecodedKey::Unicode('{')
            } else {
                DecodedKey::Unicode('\'')
            }
        },
        KeyCode::Key5 => {
            if modifiers.is_shifted() {
                DecodedKey::Unicode('5')
            } else if modifiers.is_altgr() {
                DecodedKey::Unicode('[')
            } else {
                DecodedKey::Unicode('(')
            }
        },
        KeyCode::Key6 => {
            if modifiers.is_shifted() {
                DecodedKey::Unicode('6')
            } else if modifiers.is_altgr() {
                DecodedKey::Unicode('|')
            } else {
                DecodedKey::Unicode('-')
            }
        },
        KeyCode::Key7 => {
            if modifiers.is_shifted() {
                DecodedKey::Unicode('7')
            } else if modifiers.is_altgr() {
                DecodedKey::Unicode('`')
            } else {
                DecodedKey::Unicode('è')
            }
        },
        KeyCode::Key8 => {
            if modifiers.is_shifted() {
                DecodedKey::Unicode('8')
            } else if modifiers.is_altgr() {
                DecodedKey::Unicode('\\')
            } else {
                DecodedKey::Unicode('_')
            }
        },
        KeyCode::Key9 => {
            if modifiers.is_shifted() {
                DecodedKey::Unicode('9')
            } else if modifiers.is_altgr() {
                DecodedKey::Unicode('^')
            } else {
                DecodedKey::Unicode('ç')
            }
        },
        KeyCode::Key0 => {
            if modifiers.is_shifted() {
                DecodedKey::Unicode('0')
            } else if modifiers.is_altgr() {
                DecodedKey::Unicode('@')
            } else {
                DecodedKey::Unicode('à')
            }
        },
        KeyCode::OemMinus => {
            if modifiers.is_shifted() {
                DecodedKey::Unicode('°')
            } else if modifiers.is_altgr() {
                DecodedKey::Unicode(']')
            } else {
                DecodedKey::Unicode(')')
            }
        },
        KeyCode::OemPlus => {
            if modifiers.is_shifted() {
                DecodedKey::Unicode('+')
            } else if modifiers.is_altgr() {
                DecodedKey::Unicode('}')
            } else {
                DecodedKey::Unicode('=')
            }
        },
        KeyCode::Backspace => DecodedKey::Unicode('\u{0008}'),
        KeyCode::Tab => DecodedKey::Unicode('\u{0009}'),
        KeyCode::Q => modifiers.ascii_2('A', handle_ctrl),
        KeyCode::W => modifiers.ascii_2('Z', handle_ctrl),
        KeyCode::E => modifiers.ascii_2('E', handle_ctrl),
        KeyCode::R => modifiers.ascii_2('R', handle_ctrl),
        KeyCode::T => modifiers.ascii_2('T', handle_ctrl),
        KeyCode::Y => modifiers.ascii_2('Y', handle_ctrl),
        KeyCode::U => modifiers.ascii_2('U', handle_ctrl),
        KeyCode::I => modifiers.ascii_2('I', handle_ctrl),
        KeyCode::O => modifiers.ascii_2('O', handle_ctrl),
        KeyCode::P => modifiers.ascii_2('P', handle_ctrl),
        KeyCode::Oem4 => {
            if modifiers.is_shifted() {
                DecodedKey::Unicode('¨')
            } else if modifiers.is_altgr() {
                DecodedKey::Unicode('ˇ')
            } else {
                DecodedKey::Unicode('^')
            }
        },
        KeyCode::Oem6 => {
            if modifiers.is_shifted() {
                DecodedKey::Unicode('£')
            } else if modifiers.is_altgr() {
                DecodedKey::Unicode('¤')
            } else {
                DecodedKey::Unicode('$')
            }
        },
        KeyCode::Oem7 => modifiers.symbol2('*', 'µ'),
        KeyCode::A => modifiers.ascii_2('Q', handle_ctrl),
        KeyCode::S => modifiers.ascii_2('S', handle_ctrl),
        KeyCode::D => modifiers.ascii_2('D', handle_ctrl),
        KeyCode::F => modifiers.ascii_2('F', handle_ctrl),
        KeyCode::G => modifiers.ascii_2('G', handle_ctrl),
        KeyCode::H => modifiers.ascii_2('H', handle_ctrl),
        KeyCode::J => modifiers.ascii_2('J', handle_ctrl),
        KeyCode::K => modifiers.ascii_2('K', handle_ctrl),
        KeyCode::L => modifiers.ascii_2('L', handle_ctrl),
        KeyCode::Oem1 => modifiers.ascii_2('M', handle_ctrl),
        KeyCode::Oem3 => modifiers.symbol2('ù', '%'),
        KeyCode::Return => DecodedKey::Unicode('\u{000A}'),
        KeyCode::Z => modifiers.ascii_2('W', handle_ctrl),
        KeyCode::X => modifiers.ascii_2('X', handle_ctrl),
        KeyCode::C => modifiers.ascii_2('C', handle_ctrl),
        KeyCode::V => modifiers.ascii_2('V', handle_ctrl),
        KeyCode::B => modifiers.ascii_2('B', handle_ctrl),
        KeyCode::N => modifiers.ascii_2('N', handle_ctrl),
        KeyCode::M => modifiers.letter2(',', '?'),
        KeyCode::OemComma => modifiers.symbol2(';', '.'),
        KeyCode::OemPeriod => modifiers.symbol2(':', '/'),
        KeyCode::Oem2 => modifiers.symbol2('!', '§'),
        KeyCode::Spacebar => DecodedKey::Unicode(' '),
        KeyCode::Delete => DecodedKey::Unicode('\u{007F}'),
        KeyCode::NumpadDivide => DecodedKey::Unicode('/'),
        KeyCode::NumpadMultiply => DecodedKey::Unicode('*'),
        KeyCode::NumpadSubtract => DecodedKey::Unicode('-'),
        KeyCode::Numpad7 => modifiers.num_pad('7', KeyCode::Home),
        KeyCode::Numpad8 => modifiers.num_pad('8', KeyCode::ArrowUp),
        KeyCode::Numpad9 => modifiers.num_pad('9', KeyCode::PageUp),
        KeyCode::NumpadAdd => DecodedKey::Unicode('+'),
        KeyCode::Numpad4 => modifiers.num_pad('4', KeyCode::ArrowLeft),
        KeyCode::Numpad5 => DecodedKey::Unicode('5'),
        KeyCode::Numpad6 => modifiers.num_pad('6', KeyCode::ArrowRight),
        KeyCode::Numpad1 => modifiers.num_pad('1', KeyCode::End),
        KeyCode::Numpad2 => modifiers.num_pad('2', KeyCode::ArrowDown),
        KeyCode::Numpad3 => modifiers.num_pad('3', KeyCode::PageDown),
        KeyCode::Numpad0 => modifiers.num_pad('0', KeyCode::Insert),
        KeyCode::NumpadPeriod => modifiers.num_del('.', '\u{007F}'),
        KeyCode::NumpadEnter => DecodedKey::Unicode('\u{000A}'),
        k => DecodedKey::RawKey(k),
    }
}

impl KeyboardLayout for Azerty {
    open spec fn decoded(&self, keycode: KeyCode, modifiers: Modifiers, handle_ctrl: HandleControl) -> DecodedKey {
        azerty_decoded(keycode, modifiers, handle_ctrl)
    }

    open spec fn physical(&self) -> PhysicalKeyboard {
        PhysicalKeyboard::Iso
    }

    fn map_keycode(&self, keycode: KeyCode, modifiers: &Modifiers, handle_ctrl: HandleControl) -> (key:
        DecodedKey) {
        match keycode {
            KeyCode::Escape => DecodedKey::Unicode('\u{001B}'),
            KeyCode::Oem8 => {
                if modifiers.is_shifted() {
                    DecodedKey::Unicode('³')
                } else if modifiers.is_altgr() {
                    DecodedKey::Unicode('¹')
                } else {
                    DecodedKey::Unicode('²')
                }
            },
            KeyCode::Oem5 => {
                if modifiers.is_shifted() {
                    if modifiers.is_altgr() {
                        DecodedKey::Unicode('≥')
                    } else {
                        DecodedKey::Unicode('>')
                    }
                } else {
                    if modifiers.is_altgr() {
                        DecodedKey::Unicode('≤')
                    } else {
                        DecodedKey::Unicode('<')
                    }
                }
            },
            KeyCode::Key1 => {
                if modifiers.is_shifted() {
                    DecodedKey::Unicode('1')
                } else {
                    DecodedKey::Unicode('&')
                }
            },
            KeyCode::Key2 => {
                if modifiers.is_shifted() {
                    DecodedKey::Unicode('2')
                } else if modifiers.is_altgr() {
                    DecodedKey::Unicode('~')
                } else {
                    DecodedKey::Unicode('é')
                }
            },
            KeyCode::Key3 => {
                if modifiers.is_shifted() {
                    DecodedKey::Unicode('3')
                } else if modifiers.is_altgr() {
                    DecodedKey::Unicode('#')
                } else {
                    DecodedKey::Unicode('"')
                }
            },
            KeyCode::Key4 => {
                if modifiers.is_shifted() {
                    DecodedKey::Unicode('4')
                } else if modifiers.is_altgr() {
                    DecodedKey::Unicode('{')
                } else {
                    DecodedKey::Unicode('\'')
                }
            },
            KeyCode::Key5 => {
                if modifiers.is_shifted() {
                    DecodedKey::Unicode('5')
                } else if modifiers.is_altgr() {
                    DecodedKey::Unicode('[')
                } else {
                    DecodedKey::Unicode('(')
                }
            },
            KeyCode::Key6 => {
                if modifiers.is_shifted() {
                    DecodedKey::Unicode('6')
                } else if modifiers.is_altgr() {
                    DecodedKey::Unicode('|')
                } else {
                    DecodedKey::Unicode('-')
                }
            },
            KeyCode::Key7 => {
                if modifiers.is_shifted() {
                    DecodedKey::Unicode('7')
                } else if modifiers.is_altgr() {
                    DecodedKey::Unicode('`')
                } else {
                    DecodedKey::Unicode('è')
                }
            },
            KeyCode::Key8 => {
                if modifiers.is_shifted() {
                    DecodedKey::Unicode('8')
                } else if modifiers.is_altgr() {
                    DecodedKey::Unicode('\\')
                } else {
                    DecodedKey::Unicode('_')
                }
            },
            KeyCode::Key9 => {
                if modifiers.is_shifted() {
                    DecodedKey::Unicode('9')
                } else if modifiers.is_altgr() {
                    DecodedKey::Unicode('^')
                } else {
                    DecodedKey::Unicode('ç')
                }
            },
            KeyCode::Key0 => {
                if modifiers.is_shifted() {
                    DecodedKey::Unicode('0')
                } else if modifiers.is_altgr() {
                    DecodedKey::Unicode('@')
                } else {
                    DecodedKey::Unicode('à')
                }
            },
            KeyCode::OemMinus => {
                if modifiers.is_shifted() {
                    DecodedKey::Unicode('°')
                } else if modifiers.is_altgr() {
                    DecodedKey::Unicode(']')
                } else {
                    DecodedKey::Unicode(')')
                }
            },
            KeyCode::OemPlus => {
                if modifiers.is_shifted() {
                    DecodedKey::Unicode('+')
                } else if modifiers.is_altgr() {
                    DecodedKey::Unicode('}')
                } else {
                    DecodedKey::Unicode('=')
                }
            },
            KeyCode::Backspace => DecodedKey::Unicode('\u{0008}'),
            KeyCode::Tab => DecodedKey::Unicode('\u{0009}'),
            KeyCode::Q => {
                if handle_ctrl == HandleControl::MapLettersToUnicode && modifiers.is_ctrl() {
                    DecodedKey::Unicode('\u{0001}')
                } else if modifiers.is_caps() {
                    DecodedKey::Unicode('A')
                } else {
                    DecodedKey::Unicode('a')
                }
            },
            KeyCode::W => {
                if handle_ctrl == HandleControl::MapLettersToUnicode && modifiers.is_ctrl() {
                    DecodedKey::Unicode('\u{001A}')
                } else if modifiers.is_caps() {
                    DecodedKey::Unicode('Z')
                } else {
                    DecodedKey::Unicode('z')
                }
            },
            KeyCode::E => {
                if handle_ctrl == HandleControl::MapLettersToUnicode && modifiers.is_ctrl() {
                    DecodedKey::Unicode('\u{0005}')
                } else if modifiers.is_caps() {
                    DecodedKey::Unicode('E')
                } else {
                    DecodedKey::Unicode('e')
                }
            },
            KeyCode::R => {
                if handle_ctrl == HandleControl::MapLettersToUnicode && modifiers.is_ctrl() {
                    DecodedKey::Unicode('\u{0012}')
                } else if modifiers.is_caps() {
                    DecodedKey::Unicode('R')
                } else {
                    DecodedKey::Unicode('r')
                }
            },
            KeyCode::T => {
                if handle_ctrl == HandleControl::MapLettersToUnicode && modifiers.is_ctrl() {
                    DecodedKey::Unicode('\u{0014}')
                } else if modifiers.is_caps() {
                    DecodedKey::Unicode('T')
                } else {
                    DecodedKey::Unicode('t')
                }
            },
            KeyCode::Y => {
                if handle_ctrl == HandleControl::MapLettersToUnicode && modifiers.is_ctrl() {
                    DecodedKey::Unicode('\u{0019}')
                } else if modifiers.is_caps() {
                    DecodedKey::Unicode('Y')
                } else {
                    DecodedKey::Unicode('y')
                }
            },
            KeyCode::U => {
                if handle_ctrl == HandleControl::MapLettersToUnicode && modifiers.is_ctrl() {
                    DecodedKey::Unicode('\u{0015}')
                } else if modifiers.is_caps() {
                    DecodedKey::Unicode('U')
                } else {
                    DecodedKey::Unicode('u')
                }
            },
            KeyCode::I => {
                if handle_ctrl == HandleControl::MapLettersToUnicode && modifiers.is_ctrl() {
                    DecodedKey::Unicode('\u{0009}')
                } else if modifiers.is_caps() {
                    DecodedKey::Unicode('I')
                } else {
                    DecodedKey::Unicode('i')
                }
            },
            KeyCode::O => {
                if handle_ctrl == HandleControl::MapLettersToUnicode && modifiers.is_ctrl() {
                    DecodedKey::Unicode('\u{000F}')
                } else if modifiers.is_caps() {
                    DecodedKey::Unicode('O')
                } else {
                    DecodedKey::Unicode('o')
                }
            },
            KeyCode::P => {
                if handle_ctrl == HandleControl::MapLettersToUnicode && modifiers.is_ctrl() {
                    DecodedKey::Unicode('\u{0010}')
                } else if modifiers.is_caps() {
                    DecodedKey::Unicode('P')
                } else {
                    DecodedKey::Unicode('p')
                }
            },
            KeyCode::Oem4 => {
                if modifiers.is_shifted() {
                    DecodedKey::Unicode('¨')
                } else if modifiers.is_altgr() {
                    DecodedKey::Unicode('ˇ')
                } else {
                    DecodedKey::Unicode('^')
                }
            },
            KeyCode::Oem6 => {
                if modifiers.is_shifted() {
                    DecodedKey::Unicode('£')
                } else if modifiers.is_altgr() {
                    DecodedKey::Unicode('¤')
                } else {
                    DecodedKey::Unicode('$')
                }
            },
            KeyCode::Oem7 => {
                if modifiers.is_shifted() {
                    DecodedKey::Unicode('µ')
                } else {
                    DecodedKey::Unicode('*')
                }
            },
            KeyCode::A => {
                if handle_ctrl == HandleControl::MapLettersToUnicode && modifiers.is_ctrl() {
                    DecodedKey::Unicode('\u{0011}')
                } else if modifiers.is_caps() {
                    DecodedKey::Unicode('Q')
                } else {
                    DecodedKey::Unicode('q')
                }
            },
            KeyCode::S => {
                if handle_ctrl == HandleControl::MapLettersToUnicode && modifiers.is_ctrl() {
                    DecodedKey::Unicode('\u{0013}')
                } else if modifiers.is_caps() {
                    DecodedKey::Unicode('S')
                } else {
                    DecodedKey::Unicode('s')
                }
            },
            KeyCode::D => {
                if handle_ctrl == HandleControl::MapLettersToUnicode && modifiers.is_ctrl() {
                    DecodedKey::Unicode('\u{0004}')
                } else if modifiers.is_caps() {
                    DecodedKey::Unicode('D')
                } else {
                    DecodedKey::Unicode('d')
                }
            },
            KeyCode::F => {
                if handle_ctrl == HandleControl::MapLettersToUnicode && modifiers.is_ctrl() {
                    DecodedKey::Unicode('\u{0006}')
                } else if modifiers.is_caps() {
                    DecodedKey::Unicode('F')
                } else {
                    DecodedKey::Unicode('f')
                }
            },
            KeyCode::G => {
                if handle_ctrl == HandleControl::MapLettersToUnicode && modifiers.is_ctrl() {
                    DecodedKey::Unicode('\u{0007}')
                } else if modifiers.is_caps() {
                    DecodedKey::Unicode('G')
                } else {
                    DecodedKey::Unicode('g')
                }
            },
            KeyCode::H => {
                if handle_ctrl == HandleControl::MapLettersToUnicode && modifiers.is_ctrl() {
                    DecodedKey::Unicode('\u{0008}')
                } else if modifiers.is_caps() {
                    DecodedKey::Unicode('H')
                } else {
                    DecodedKey::Unicode('h')
                }
            },
            KeyCode::J => {
                if handle_ctrl == HandleControl::MapLettersToUnicode && modifiers.is_ctrl() {
                    DecodedKey::Unicode('\u{000A}')
                } else if modifiers.is_caps() {
                    DecodedKey::Unicode('J')
                } else {
                    DecodedKey::Unicode('j')
                }
            },
            KeyCode::K => {
                if handle_ctrl == HandleControl::MapLettersToUnicode && modifiers.is_ctrl() {
                    DecodedKey::Unicode('\u{000B}')
                } else if modifiers.is_caps() {
                    DecodedKey::Unicode('K')
                } else {
                    DecodedKey::Unicode('k')
                }
            },
            KeyCode::L => {
                if handle_ctrl == HandleControl::MapLettersToUnicode && modifiers.is_ctrl() {
                    DecodedKey::Unicode('\u{000C}')
                } else if modifiers.is_caps() {
                    DecodedKey::Unicode('L')
                } else {
                    DecodedKey::Unicode('l')
                }
            },
            KeyCode::Oem1 => {
                if handle_ctrl == HandleControl::MapLettersToUnicode && modifiers.is_ctrl() {
                    DecodedKey::Unicode('\u{000D}')
                } else if modifiers.is_caps() {
                    DecodedKey::Unicode('M')
                } else {
                    DecodedKey::Unicode('m')
                }
            },
            KeyCode::Oem3 => {
                if modifiers.is_shifted() {
                    DecodedKey::Unicode('%')
                } else {
                    DecodedKey::Unicode('ù')
                }
            },
            KeyCode::Return => DecodedKey::Unicode('\u{000A}'),
            KeyCode::Z => {
                if handle_ctrl == HandleControl::MapLettersToUnicode && modifiers.is_ctrl() {
                    DecodedKey::Unicode('\u{0017}')
                } else if modifiers.is_caps() {
                    DecodedKey::Unicode('W')
                } else {
                    DecodedKey::Unicode('w')
                }
            },
            KeyCode::X => {
                if handle_ctrl == HandleControl::MapLettersToUnicode && modifiers.is_ctrl() {
                    DecodedKey::Unicode('\u{0018}')
                } else if modifiers.is_caps() {
                    DecodedKey::Unicode('X')
                } else {
                    DecodedKey::Unicode('x')
                }
            },
            KeyCode::C => {
                if handle_ctrl == HandleControl::MapLettersToUnicode && modifiers.is_ctrl() {
                    DecodedKey::Unicode('\u{0003}')
                } else if modifiers.is_caps() {
                    DecodedKey::Unicode('C')
                } else {
                    DecodedKey::Unicode('c')
                }
            },
            KeyCode::V => {
                if handle_ctrl == HandleControl::MapLettersToUnicode && modifiers.is_ctrl() {
                    DecodedKey::Unicode('\u{0016}')
                } else if modifiers.is_caps() {
                    DecodedKey::Unicode('V')
                } else {
                    DecodedKey::Unicode('v')
                }
            },
            KeyCode::B => {
                if handle_ctrl == HandleControl::MapLettersToUnicode && modifiers.is_ctrl() {
                    DecodedKey::Unicode('\u{0002}')
                } else if modifiers.is_caps() {
                    DecodedKey::Unicode('B')
                } else {
                    DecodedKey::Unicode('b')
                }
            },
            KeyCode::N => {
                if handle_ctrl == HandleControl::MapLettersToUnicode && modifiers.is_ctrl() {
                    DecodedKey::Unicode('\u{000E}')
                } else if modifiers.is_caps() {
                    DecodedKey::Unicode('N')
                } else {
                    DecodedKey::Unicode('n')
                }
            },
            KeyCode::M => {
                if modifiers.is_caps() {
                    DecodedKey::Unicode('?')
                } else {
                    DecodedKey::Unicode(',')
                }
            },
            KeyCode::OemComma => {
                if modifiers.is_shifted() {
                    DecodedKey::Unicode('.')
                } else {
                    DecodedKey::Unicode(';')
                }
            },
            KeyCode::OemPeriod => {
                if modifiers.is_shifted() {
                    DecodedKey::Unicode('/')
                } else {
                    DecodedKey::Unicode(':')
                }
            },
            KeyCode::Oem2 => {
                if modifiers.is_shifted() {
                    DecodedKey::Unicode('§')
                } else {
                    DecodedKey::Unicode('!')
                }
            },
            KeyCode::Spacebar => DecodedKey::Unicode(' '),
            KeyCode::Delete => DecodedKey::Unicode('\u{007F}'),
            KeyCode::NumpadDivide => DecodedKey::Unicode('/'),
            KeyCode::NumpadMultiply => DecodedKey::Unicode('*'),
            KeyCode::NumpadSubtract => DecodedKey::Unicode('-'),
            KeyCode::Numpad7 => {
                if modifiers.numlock {
                    DecodedKey::Unicode('7')
                } else {
                    DecodedKey::RawKey(KeyCode::Home)
                }
            },
            KeyCode::Numpad8 => {
                if modifiers.numlock {
                    DecodedKey::Unicode('8')
                } else {
                    DecodedKey::RawKey(KeyCode::ArrowUp)
                }
            },
            KeyCode::Numpad9 => {
                if modifiers.numlock {
                    DecodedKey::Unicode('9')
                } else {
                    DecodedKey::RawKey(KeyCode::PageUp)
                }
            },
            KeyCode::NumpadAdd => DecodedKey::Unicode('+'),
            KeyCode::Numpad4 => {
                if modifiers.numlock {
                    DecodedKey::Unicode('4')
                } else {
                    DecodedKey::RawKey(KeyCode::ArrowLeft)
                }
            },
            KeyCode::Numpad5 => DecodedKey::Unicode('5'),
            KeyCode::Numpad6 => {
                if modifiers.numlock {
                    DecodedKey::Unicode('6')
                } else {
                    DecodedKey::RawKey(KeyCode::ArrowRight)
                }
            },
            KeyCode::Numpad1 => {
                if modifiers.numlock {
                    DecodedKey::Unicode('1')
                } else {
                    DecodedKey::RawKey(KeyCode::End)
                }
            },
            KeyCode::Numpad2 => {
                if modifiers.numlock {
                    DecodedKey::Unicode('2')
                } else {
                    DecodedKey::RawKey(KeyCode::ArrowDown)
                }
            },
            KeyCode::Numpad3 => {
                if modifiers.numlock {
                    DecodedKey::Unicode('3')
                } else {
                    DecodedKey::RawKey(KeyCode::PageDown)
                }
            },
            KeyCode::Numpad0 => {
                if modifiers.numlock {
                    DecodedKey::Unicode('0')
                } else {
                    DecodedKey::RawKey(KeyCode::Insert)
                }
            },
            KeyCode::NumpadPeriod => {
                if modifiers.numlock {
                    DecodedKey::Unicode('.')
                } else {
                    DecodedKey::Unicode('\u{007F}')
                }
            },
            KeyCode::NumpadEnter => DecodedKey::Unicode('\u{000A}'),
            k => DecodedKey::RawKey(k),
        }
    }

    fn get_physical(&self) -> (kind: PhysicalKeyboard) {
        PhysicalKeyboard::Iso
    }
}

} // verus!
