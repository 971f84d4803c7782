//! The state of the modifier keys, and the rules by which a layout picks one
//! of the glyphs printed on a key.

use vstd::prelude::*;
use crate::types::{DecodedKey, HandleControl, KeyCode};

verus! {

/// Which modifier keys are held, and which toggles are on.
#[derive(Debug, Clone, Eq, PartialEq, Hash)]
pub struct Modifiers {
    /// The left shift key is down.
    pub lshift: bool,
    /// The right shift key is down.
    pub rshift: bool,
    /// The left control key is down.
    pub lctrl: bool,
    /// The right control key is down.
    pub rctrl: bool,
    /// The Num Lock toggle is on.
    pub numlock: bool,
    /// The Caps Lock toggle is on.
    pub capslock: bool,
    /// The left alt key is down.
    pub lalt: bool,
    /// The right alt key (AltGr) is down.
    pub ralt: bool,
    /// The hidden control key that a keyboard sends ahead of Num Lock when
    /// Pause is pressed is down.
    pub rctrl2: bool,
}

/// Whether `letter` is one of the capitals A to Z.
pub open spec fn is_ascii_capital(letter: char) -> bool {
    'A' <= letter <= 'Z'
}

/// The control character of a capital: U+0001 for A up to U+001A for Z.
pub open spec fn control_char(letter: char) -> char
    recommends
        is_ascii_capital(letter),
{
    ((letter as u32) - 64) as char
}

/// The small letter of a capital.
pub open spec fn small_letter(letter: char) -> char
    recommends
        is_ascii_capital(letter),
{
    ((letter as u32) + 32) as char
}

fn to_control_char(letter: char) -> (c: char)
    requires
        is_ascii_capital(letter),
    ensures
        c == control_char(letter),
{
    let code: u8 = letter as u8;
    (code - 64) as char
}

fn to_small_letter(letter: char) -> (c: char)
    requires
        is_ascii_capital(letter),
    ensures
        c == small_letter(letter),
{
    let code: u8 = letter as u8;
    (code + 32) as char
}

impl Default for Modifiers {
    /// Nothing held, both toggles off.
    fn default() -> (m: Modifiers)
        ensures
            m == Modifiers::released(false),
    {
        Modifiers {
            lshift: false,
            rshift: false,
            lctrl: false,
            rctrl: false,
            numlock: false,
            capslock: false,
            lalt: false,
            ralt: false,
            rctrl2: false,
        }
    }
}

impl Modifiers {
    /// No key held, Caps Lock off, Num Lock as given.
    pub open spec fn released(numlock: bool) -> Modifiers {
        Modifiers {
            lshift: false,
            rshift: false,
            lctrl: false,
            rctrl: false,
            numlock,
            capslock: false,
            lalt: false,
            ralt: false,
            rctrl2: false,
        }
    }

    pub open spec fn spec_is_shifted(&self) -> bool {
        self.lshift || self.rshift
    }

    pub open spec fn spec_is_ctrl(&self) -> bool {
        self.lctrl || self.rctrl
    }

    pub open spec fn spec_is_alt(&self) -> bool {
        self.lalt || self.ralt
    }

    pub open spec fn spec_is_altgr(&self) -> bool {
        self.ralt || (self.lalt && self.spec_is_ctrl())
    }

    pub open spec fn spec_is_caps(&self) -> bool {
        self.spec_is_shifted() != self.capslock
    }

    /// Either shift key is down.
    #[verifier::when_used_as_spec(spec_is_shifted)]
    pub fn is_shifted(&self) -> (b: bool)
        ensures
            b == self.spec_is_shifted(),
    {
        self.lshift || self.rshift
    }

    /// Either control key is down.
    #[verifier::when_used_as_spec(spec_is_ctrl)]
    pub fn is_ctrl(&self) -> (b: bool)
        ensures
            b == self.spec_is_ctrl(),
    {
        self.lctrl || self.rctrl
    }

    /// Either alt key is down.
    #[verifier::when_used_as_spec(spec_is_alt)]
    pub fn is_alt(&self) -> (b: bool)
        ensures
            b == self.spec_is_alt(),
    {
        self.lalt || self.ralt
    }

    /// The third level is selected: by AltGr, or by left alt together with a
    /// control key.
    #[verifier::when_used_as_spec(spec_is_altgr)]
    pub fn is_altgr(&self) -> (b: bool)
        ensures
            b == self.spec_is_altgr(),
    {
        self.ralt || (self.lalt && self.is_ctrl())
    }

    /// Letters come out as capitals: shift and Caps Lock cancel each other.
    #[verifier::when_used_as_spec(spec_is_caps)]
    pub fn is_caps(&self) -> (b: bool)
        ensures
            b == self.spec_is_caps(),
    {
        self.is_shifted() != self.capslock
    }

    /// The character of a letter key, from the capital printed on it.
    pub open spec fn ascii_2(&self, letter: char, handle_ctrl: HandleControl) -> DecodedKey {
        if handle_ctrl == HandleControl::MapLettersToUnicode && self.is_ctrl() {
            DecodedKey::Unicode(control_char(letter))
        } else if self.is_caps() {
            DecodedKey::Unicode(letter)
        } else {
            DecodedKey::Unicode(small_letter(letter))
        }
    }

    /// The character of a key with a small and a capital form.
    pub open spec fn letter2(&self, letter_lower: char, letter_upper: char) -> DecodedKey {
        if self.is_caps() {
            DecodedKey::Unicode(letter_upper)
        } else {
            DecodedKey::Unicode(letter_lower)
        }
    }

    /// The character of a letter key that has one more glyph under AltGr.
    pub open spec fn ascii_3(&self, letter_upper: char, alt: char, handle_ctrl: HandleControl) -> DecodedKey {
        if handle_ctrl == HandleControl::MapLettersToUnicode && self.is_ctrl() {
            DecodedKey::Unicode(control_char(letter_upper))
        } else if self.ralt {
            DecodedKey::Unicode(alt)
        } else {
            self.ascii_2(letter_upper, HandleControl::Ignore)
        }
    }

    /// The character of a letter key that has a second letter under AltGr.
    pub open spec fn ascii_4(
        &self,
        letter_upper: char,
        alt_letter_lower: char,
        alt_letter_upper: char,
        handle_ctrl: HandleControl,
    ) -> DecodedKey {
        if handle_ctrl == HandleControl::MapLettersToUnicode && self.is_ctrl() {
            DecodedKey::Unicode(control_char(letter_upper))
        } else if self.ralt {
            self.letter2(alt_letter_lower, alt_letter_upper)
        } else {
            self.ascii_2(letter_upper, HandleControl::Ignore)
        }
    }

    /// What a numeric pad key gives: its digit under Num Lock, else the
    /// navigation key printed below it.
    pub open spec fn num_pad(&self, letter: char, key: KeyCode) -> DecodedKey {
        if self.numlock {
            DecodedKey::Unicode(letter)
        } else {
            DecodedKey::RawKey(key)
        }
    }

    /// What a numeric pad key with two characters gives.
    pub open spec fn num_del(&self, letter: char, other: char) -> DecodedKey {
        if self.numlock {
            DecodedKey::Unicode(letter)
        } else {
            DecodedKey::Unicode(other)
        }
    }

    /// The character of a key with two glyphs; only shift selects.
    pub open spec fn symbol2(&self, plain: char, shifted: char) -> DecodedKey {
        if self.is_shifted() {
            DecodedKey::Unicode(shifted)
        } else {
            DecodedKey::Unicode(plain)
        }
    }

    /// The character of a key with three glyphs; the third level wins over
    /// shift.
    pub open spec fn symbol3(&self, plain: char, shifted: char, alt: char) -> DecodedKey {
        if self.is_altgr() {
            DecodedKey::Unicode(alt)
        } else {
            self.symbol2(plain, shifted)
        }
    }

    /// Decodes a letter key. With a control key held and
    /// [`HandleControl::MapLettersToUnicode`] the result is the control
    /// character; otherwise the capital or the small letter, by
    /// [`Modifiers::is_caps`].
    pub fn handle_ascii_2(&self, letter: char, handle_ctrl: HandleControl) -> (key: DecodedKey)
        requires
            is_ascii_capital(letter),
        ensures
            key == self.ascii_2(letter, handle_ctrl),
    {
        if handle_ctrl == HandleControl::MapLettersToUnicode && self.is_ctrl() {
            DecodedKey::Unicode(to_control_char(letter))
        } else if self.is_caps() {
            DecodedKey::Unicode(letter)
        } else {
            DecodedKey::Unicode(to_small_letter(letter))
        }
    }

    /// Decodes a key with a small and a capital form outside A to Z. Control
    /// keys are not looked at.
    pub fn handle_letter2(&self, letter_lower: char, letter_upper: char) -> (key: DecodedKey)
        ensures
            key == self.letter2(letter_lower, letter_upper),
    {
        if self.is_caps() {
            DecodedKey::Unicode(letter_upper)
        } else {
            DecodedKey::Unicode(letter_lower)
        }
    }

    /// Decodes a letter key that gives `alt` while AltGr is held.
    pub fn handle_ascii_3(&self, letter_upper: char, alt: char, handle_ctrl: HandleControl) -> (key:
        DecodedKey)
        requires
            is_ascii_capital(letter_upper),
        ensures
            key == self.ascii_3(letter_upper, alt, handle_ctrl),
    {
        if handle_ctrl == HandleControl::MapLettersToUnicode && self.is_ctrl() {
            DecodedKey::Unicode(to_control_char(letter_upper))
        } else if self.ralt {
            DecodedKey::Unicode(alt)
        } else if self.is_caps() {
            DecodedKey::Unicode(letter_upper)
        } else {
            DecodedKey::Unicode(to_small_letter(letter_upper))
        }
    }

    /// Decodes a letter key that gives a second letter, small or capital,
    /// while AltGr is held.
    pub fn handle_ascii_4(
        &self,
        letter_upper: char,
        alt_letter_lower: char,
        alt_letter_upper: char,
        handle_ctrl: HandleControl,
    ) -> (key: DecodedKey)
        requires
            is_ascii_capital(letter_upper),
        ensures
            key == self.ascii_4(letter_upper, alt_letter_lower, alt_letter_upper, handle_ctrl),
    {
        if handle_ctrl == HandleControl::MapLettersToUnicode && self.is_ctrl() {
            DecodedKey::Unicode(to_control_char(letter_upper))
        } else if self.ralt && self.is_caps() {
            DecodedKey::Unicode(alt_letter_upper)
        } else if self.ralt {
            DecodedKey::Unicode(alt_letter_lower)
        } else if self.is_caps() {
            DecodedKey::Unicode(letter_upper)
        } else {
            DecodedKey::Unicode(to_small_letter(letter_upper))
        }
    }

    /// Decodes a numeric pad key that is a character under Num Lock and a
    /// raw key without it.
    pub fn handle_num_pad(&self, letter: char, key: KeyCode) -> (decoded: DecodedKey)
        ensures
            decoded == self.num_pad(letter, key),
    {
        if self.numlock {
            DecodedKey::Unicode(letter)
        } else {
            DecodedKey::RawKey(key)
        }
    }

    /// Decodes a numeric pad key that is one character under Num Lock and
    /// another without it.
    pub fn handle_num_del(&self, letter: char, other: char) -> (key: DecodedKey)
        ensures
            key == self.num_del(letter, other),
    {
        if self.numlock {
            DecodedKey::Unicode(letter)
        } else {
            DecodedKey::Unicode(other)
        }
    }

    /// Decodes a key with a plain and a shifted glyph. Caps Lock is not
    /// looked at.
    pub fn handle_symbol2(&self, plain: char, shifted: char) -> (key: DecodedKey)
        ensures
            key == self.symbol2(plain, shifted),
    {
        if self.is_shifted() {
            DecodedKey::Unicode(shifted)
        } else {
            DecodedKey::Unicode(plain)
        }
    }

    /// Decodes a key with a plain, a shifted and a third level glyph.
    pub fn handle_symbol3(&self, plain: char, shifted: char, alt: char) -> (key: DecodedKey)
        ensures
            key == self.symbol3(plain, shifted, alt),
    {
        if self.is_altgr() {
            DecodedKey::Unicode(alt)
        } else if self.is_shifted() {
            DecodedKey::Unicode(shifted)
        } else {
            DecodedKey::Unicode(plain)
        }
    }
}

} // verus!
