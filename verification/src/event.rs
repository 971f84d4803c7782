//! From key events to characters: the modifier state machine, and the
//! interface of a layout.

use vstd::prelude::*;
use crate::modifiers::Modifiers;
use crate::types::{DecodedKey, HandleControl, KeyCode, KeyEvent, KeyState, PhysicalKeyboard};

verus! {

/// A keyboard layout: the table from keys to characters of one locale.
pub trait KeyboardLayout {
    /// What the layout gives for a key while the given modifiers are in
    /// force.
    spec fn decoded(&self, keycode: KeyCode, modifiers: Modifiers, handle_ctrl: HandleControl) -> DecodedKey;

    /// The physical keyboard that the layout is printed on.
    spec fn physical(&self) -> PhysicalKeyboard;

    /// Decodes one key: a character where the key has one under these
    /// modifiers, else the key itself.
    fn map_keycode(&self, keycode: KeyCode, modifiers: &Modifiers, handle_ctrl: HandleControl) -> (key:
        DecodedKey)
        ensures
            key == self.decoded(keycode, *modifiers, handle_ctrl),
    ;

    /// Which physical keyboard this layout is for.
    fn get_physical(&self) -> (kind: PhysicalKeyboard)
        ensures
            kind == self.physical(),
    ;
}

/// Whether a key that was `held` before an event is held after it: the
/// event changes that only if it is a press or a release of that very key.
pub open spec fn held_after(held: bool, key: KeyCode, ev: KeyEvent) -> bool {
    if ev.code == key && ev.state == KeyState::Down {
        true
    } else if ev.code == key && ev.state == KeyState::Up {
        false
    } else {
        held
    }
}

/// Whether an event is a press of `key`.
pub open spec fn is_press_of(key: KeyCode, ev: KeyEvent) -> bool {
    ev.code == key && ev.state == KeyState::Down
}

/// The modifiers after an event.
///
/// The flag of a shift, control or alt key follows that key. A press of
/// Caps Lock flips its toggle. A press of Num Lock flips its toggle unless
/// the hidden control key is down: the two together are the Pause key.
/// Nothing else changes the modifiers.
pub open spec fn modifiers_after(m: Modifiers, ev: KeyEvent) -> Modifiers {
    Modifiers {
        lshift: held_after(m.lshift, KeyCode::LShift, ev),
        rshift: held_after(m.rshift, KeyCode::RShift, ev),
        lctrl: held_after(m.lctrl, KeyCode::LControl, ev),
        rctrl: held_after(m.rctrl, KeyCode::RControl, ev),
        numlock: m.numlock != (is_press_of(KeyCode::NumpadLock, ev) && !m.rctrl2),
        capslock: m.capslock != is_press_of(KeyCode::CapsLock, ev),
        lalt: held_after(m.lalt, KeyCode::LAlt, ev),
        ralt: held_after(m.ralt, KeyCode::RAltGr, ev),
        rctrl2: held_after(m.rctrl2, KeyCode::RControl2, ev),
    }
}

/// The keys that the event decoder handles itself and never hands to the
/// layout.
pub open spec fn is_modifier_key(code: KeyCode) -> bool {
    code == KeyCode::LShift || code == KeyCode::RShift || code == KeyCode::LControl || code
        == KeyCode::RControl || code == KeyCode::LAlt || code == KeyCode::RAltGr || code
        == KeyCode::RControl2 || code == KeyCode::CapsLock || code == KeyCode::NumpadLock
}

/// What an event decodes to, given the modifiers in force before it.
///
/// Only a press decodes to anything. A modifier key gives itself, but Num
/// Lock with the hidden control key down gives Pause. Every other key is
/// the layout's to decide.
pub open spec fn key_decoded<L: KeyboardLayout>(
    layout: L,
    handle_ctrl: HandleControl,
    m: Modifiers,
    ev: KeyEvent,
) -> Option<DecodedKey> {
    if ev.state != KeyState::Down {
        None
    } else if ev.code == KeyCode::NumpadLock && m.rctrl2 {
        Some(DecodedKey::RawKey(KeyCode::PauseBreak))
    } else if is_modifier_key(ev.code) {
        Some(DecodedKey::RawKey(ev.code))
    } else {
        Some(layout.decoded(ev.code, m, handle_ctrl))
    }
}

/// Turns key events into characters, by the layout it holds and the
/// modifiers it tracks.
#[derive(Debug)]
pub struct EventDecoder<L: KeyboardLayout> {
    handle_ctrl: HandleControl,
    modifiers: Modifiers,
    layout: L,
}

impl<L: KeyboardLayout> EventDecoder<L> {
    /// The modifiers in force.
    pub closed spec fn modifiers(&self) -> Modifiers {
        self.modifiers
    }

    /// How letters are decoded while a control key is held.
    pub closed spec fn ctrl_handling(&self) -> HandleControl {
        self.handle_ctrl
    }

    /// The layout in use.
    pub closed spec fn layout(&self) -> L {
        self.layout
    }

    /// A decoder with no key held, Caps Lock off and Num Lock on.
    pub fn new(layout: L, handle_ctrl: HandleControl) -> (decoder: EventDecoder<L>)
        ensures
            decoder.layout() == layout,
            decoder.ctrl_handling() == handle_ctrl,
            decoder.modifiers() == Modifiers::released(true),
    {
        EventDecoder {
            handle_ctrl,
            modifiers: Modifiers {
                lshift: false,
                rshift: false,
                lctrl: false,
                rctrl: false,
                numlock: true,
                capslock: false,
                lalt: false,
                ralt: false,
                rctrl2: false,
            },
            layout,
        }
    }

    /// Changes how letters are decoded while a control key is held.
    pub fn set_ctrl_handling(&mut self, new_value: HandleControl)
        ensures
            final(self).ctrl_handling() == new_value,
            final(self).modifiers() == old(self).modifiers(),
            final(self).layout() == old(self).layout(),
    {
        self.handle_ctrl = new_value;
    }

    /// How letters are decoded while a control key is held.
    pub fn get_ctrl_handling(&self) -> (mode: HandleControl)
        ensures
            mode == self.ctrl_handling(),
    {
        self.handle_ctrl
    }

    /// The modifiers in force.
    pub fn get_modifiers(&self) -> (m: &Modifiers)
        ensures
            *m == self.modifiers(),
    {
        &self.modifiers
    }

    /// Takes one key event. The modifiers move as [`modifiers_after`] says,
    /// nothing else changes, and the result is what [`key_decoded`] gives
    /// under the modifiers that were in force before the event.
    pub fn process_keyevent(&mut self, ev: KeyEvent) -> (key: Option<DecodedKey>)
        ensures
            key == key_decoded(old(self).layout(), old(self).ctrl_handling(), old(self).modifiers(), ev),
            final(self).modifiers() == modifiers_after(old(self).modifiers(), ev),
            final(self).ctrl_handling() == old(self).ctrl_handling(),
            final(self).layout() == old(self).layout(),
    {
        let code = ev.code;
        match ev.state {
            KeyState::Down => match code {
                KeyCode::LShift => {
                    self.modifiers.lshift = true;
                    Some(DecodedKey::RawKey(KeyCode::LShift))
                },
                KeyCode::RShift => {
                    self.modifiers.rshift = true;
                    Some(DecodedKey::RawKey(KeyCode::RShift))
                },
                KeyCode::CapsLock => {
                    self.modifiers.capslock = !self.modifiers.capslock;
                    Some(DecodedKey::RawKey(KeyCode::CapsLock))
                },
                KeyCode::NumpadLock => {
                    if self.modifiers.rctrl2 {
                        // The hidden control key came first: this is Pause.
                        Some(DecodedKey::RawKey(KeyCode::PauseBreak))
                    } else {
                        self.modifiers.numlock = !self.modifiers.numlock;
                        Some(DecodedKey::RawKey(KeyCode::NumpadLock))
                    }
                },
                KeyCode::LControl => {
                    self.modifiers.lctrl = true;
                    Some(DecodedKey::RawKey(KeyCode::LControl))
                },
                KeyCode::RControl => {
                    self.modifiers.rctrl = true;
                    Some(DecodedKey::RawKey(KeyCode::RControl))
                },
                KeyCode::LAlt => {
                    self.modifiers.lalt = true;
                    Some(DecodedKey::RawKey(KeyCode::LAlt))
                },
                KeyCode::RAltGr => {
                    self.modifiers.ralt = true;
                    Some(DecodedKey::RawKey(KeyCode::RAltGr))
                },
                KeyCode::RControl2 => {
                    self.modifiers.rctrl2 = true;
                    Some(DecodedKey::RawKey(KeyCode::RControl2))
                },
                c => Some(self.layout.map_keycode(c, &self.modifiers, self.handle_ctrl)),
            },
            KeyState::Up => {
                match code {
                    KeyCode::LShift => {
                        self.modifiers.lshift = false;
                    },
                    KeyCode::RShift => {
                        self.modifiers.rshift = false;
                    },
                    KeyCode::LControl => {
                        self.modifiers.lctrl = false;
                    },
                    KeyCode::RControl => {
                        self.modifiers.rctrl = false;
                    },
                    KeyCode::LAlt => {
                        self.modifiers.lalt = false;
                    },
                    KeyCode::RAltGr => {
                        self.modifiers.ralt = false;
                    },
                    KeyCode::RControl2 => {
                        self.modifiers.rctrl2 = false;
                    },
                    _ => {},
                }
                None
            },
            KeyState::SingleShot => None,
        }
    }

    /// Replaces the layout. The modifiers stay as they are.
    pub fn change_layout(&mut self, new_layout: L)
        ensures
            final(self).layout() == new_layout,
            final(self).modifiers() == old(self).modifiers(),
            final(self).ctrl_handling() == old(self).ctrl_handling(),
    {
        self.layout = new_layout;
    }
}

/// Pause is the hidden control key followed by Num Lock. Whatever the
/// layout and the modifiers before: the press of Num Lock that follows a
/// press of the hidden control key decodes to Pause and leaves the Num Lock
/// toggle alone; the two releases, in either order, decode to nothing; and
/// after all four events the modifiers are what they were, with the hidden
/// control key up.
pub proof fn lemma_pause_key<L: KeyboardLayout>(layout: L, handle_ctrl: HandleControl, m: Modifiers)
    ensures
        ({
            let control_down = KeyEvent { code: KeyCode::RControl2, state: KeyState::Down };
            let lock_down = KeyEvent { code: KeyCode::NumpadLock, state: KeyState::Down };
            let control_up = KeyEvent { code: KeyCode::RControl2, state: KeyState::Up };
            let lock_up = KeyEvent { code: KeyCode::NumpadLock, state: KeyState::Up };
            let m1 = modifiers_after(m, control_down);
            let m2 = modifiers_after(m1, lock_down);
            &&& key_decoded(layout, handle_ctrl, m, control_down) == Some(
                DecodedKey::RawKey(KeyCode::RControl2),
            )
            &&& key_decoded(layout, handle_ctrl, m1, lock_down) == Some(
                DecodedKey::RawKey(KeyCode::PauseBreak),
            )
            &&& m2.numlock == m.numlock
            &&& key_decoded(layout, handle_ctrl, m2, control_up) is None
            &&& key_decoded(layout, handle_ctrl, modifiers_after(m2, control_up), lock_up) is None
            &&& key_decoded(layout, handle_ctrl, m2, lock_up) is None
            &&& key_decoded(layout, handle_ctrl, modifiers_after(m2, lock_up), control_up) is None
            &&& modifiers_after(modifiers_after(m2, control_up), lock_up) == Modifiers { rctrl2: false, ..m }
            &&& modifiers_after(modifiers_after(m2, lock_up), control_up) == Modifiers { rctrl2: false, ..m }
        }),
{
}

/// Only a press decodes to anything: a release or a signal gives no key,
/// whatever the layout.
pub proof fn lemma_only_presses_decode<L: KeyboardLayout>(
    layout: L,
    handle_ctrl: HandleControl,
    m: Modifiers,
    ev: KeyEvent,
)
    ensures
        key_decoded(layout, handle_ctrl, m, ev) is Some <==> ev.state == KeyState::Down,
{
}

/// A key that is no modifier leaves the modifiers as they are.
pub proof fn lemma_other_keys_keep_modifiers(m: Modifiers, ev: KeyEvent)
    requires
        !is_modifier_key(ev.code),
    ensures
        modifiers_after(m, ev) == m,
{
}

} // verus!
