//! The layouts: one table from keys to characters for each locale.
//!
//! Most of them name only the keys on which they differ from the layout of
//! the United States, and leave the rest to it.

pub mod azerty;
pub mod de104;
pub mod de105;
pub mod dvorak104;
pub mod dvorak_programmer104;
pub mod fi_se105;
pub mod jis109;
pub mod no105;
pub mod uk105;
pub mod us104;

pub use self::azerty::Azerty;
pub use self::de104::De104Key;
pub use self::de105::De105Key;
pub use self::dvorak104::Dvorak104Key;
pub use self::dvorak_programmer104::DVP104Key;
pub use self::fi_se105::FiSe105Key;
pub use self::jis109::Jis109Key;
pub use self::no105::No105Key;
pub use self::uk105::Uk105Key;
pub use self::us104::Us104Key;

use vstd::prelude::*;
use crate::event::KeyboardLayout;
use crate::modifiers::Modifiers;
use crate::types::{DecodedKey, HandleControl, KeyCode, PhysicalKeyboard};

verus! {

/// Any one of the layouts, for a decoder whose layout changes while it
/// runs.
pub enum AnyLayout {
    DVP104Key(DVP104Key),
    Dvorak104Key(Dvorak104Key),
    Us104Key(Us104Key),
    Uk105Key(Uk105Key),
    Jis109Key(Jis109Key),
    Azerty(Azerty),
    De105Key(De105Key),
    No105Key(No105Key),
    FiSe105Key(FiSe105Key),
}

impl KeyboardLayout for AnyLayout {
    open spec fn decoded(&self, keycode: KeyCode, modifiers: Modifiers, handle_ctrl: HandleControl) -> DecodedKey {
        match self {
            AnyLayout::DVP104Key(inner) => inner.decoded(keycode, modifiers, handle_ctrl),
            AnyLayout::Dvorak104Key(inner) => inner.decoded(keycode, modifiers, handle_ctrl),
            AnyLayout::Us104Key(inner) => inner.decoded(keycode, modifiers, handle_ctrl),
            AnyLayout::Uk105Key(inner) => inner.decoded(keycode, modifiers, handle_ctrl),
            AnyLayout::Jis109Key(inner) => inner.decoded(keycode, modifiers, handle_ctrl),
            AnyLayout::Azerty(inner) => inner.decoded(keycode, modifiers, handle_ctrl),
            AnyLayout::De105Key(inner) => inner.decoded(keycode, modifiers, handle_ctrl),
            AnyLayout::No105Key(inner) => inner.decoded(keycode, modifiers, handle_ctrl),
            AnyLayout::FiSe105Key(inner) => inner.decoded(keycode, modifiers, handle_ctrl),
        }
    }

    open spec fn physical(&self) -> PhysicalKeyboard {
        match self {
            AnyLayout::DVP104Key(inner) => inner.physical(),
            AnyLayout::Dvorak104Key(inner) => inner.physical(),
            AnyLayout::Us104Key(inner) => inner.physical(),
            AnyLayout::Uk105Key(inner) => inner.physical(),
            AnyLayout::Jis109Key(inner) => inner.physical(),
            AnyLayout::Azerty(inner) => inner.physical(),
            AnyLayout::De105Key(inner) => inner.physical(),
            AnyLayout::No105Key(inner) => inner.physical(),
            AnyLayout::FiSe105Key(inner) => inner.physical(),
        }
    }

    fn map_keycode(&self, keycode: KeyCode, modifiers: &Modifiers, handle_ctrl: HandleControl) -> (key:
        DecodedKey) {
        match self {
            AnyLayout::DVP104Key(inner) => inner.map_keycode(keycode, modifiers, handle_ctrl),
            AnyLayout::Dvorak104Key(inner) => inner.map_keycode(keycode, modifiers, handle_ctrl),
            AnyLayout::Us104Key(inner) => inner.map_keycode(keycode, modifiers, handle_ctrl),
            AnyLayout::Uk105Key(inner) => inner.map_keycode(keycode, modifiers, handle_ctrl),
            AnyLayout::Jis109Key(inner) => inner.map_keycode(keycode, modifiers, handle_ctrl),
            AnyLayout::Azerty(inner) => inner.map_keycode(keycode, modifiers, handle_ctrl),
            AnyLayout::De105Key(inner) => inner.map_keycode(keycode, modifiers, handle_ctrl),
            AnyLayout::No105Key(inner) => inner.map_keycode(keycode, modifiers, handle_ctrl),
            AnyLayout::FiSe105Key(inner) => inner.map_keycode(keycode, modifiers, handle_ctrl),
        }
    }

    fn get_physical(&self) -> (kind: PhysicalKeyboard) {
        match self {
            AnyLayout::DVP104Key(inner) => inner.get_physical(),
            AnyLayout::Dvorak104Key(inner) => inner.get_physical(),
            AnyLayout::Us104Key(inner) => inner.get_physical(),
            AnyLayout::Uk105Key(inner) => inner.get_physical(),
            AnyLayout::Jis109Key(inner) => inner.get_physical(),
            AnyLayout::Azerty(inner) => inner.get_physical(),
            AnyLayout::De105Key(inner) => inner.get_physical(),
            AnyLayout::No105Key(inner) => inner.get_physical(),
            AnyLayout::FiSe105Key(inner) => inner.get_physical(),
        }
    }
}

impl KeyboardLayout for &AnyLayout {
    open spec fn decoded(&self, keycode: KeyCode, modifiers: Modifiers, handle_ctrl: HandleControl) -> DecodedKey {
        (**self).decoded(keycode, modifiers, handle_ctrl)
    }

    open spec fn physical(&self) -> PhysicalKeyboard {
        (**self).physical()
    }

    fn map_keycode(&self, keycode: KeyCode, modifiers: &Modifiers, handle_ctrl: HandleControl) -> (key:
        DecodedKey) {
        (**self).map_keycode(keycode, modifiers, handle_ctrl)
    }

    fn get_physical(&self) -> (kind: PhysicalKeyboard) {
        (**self).get_physical()
    }
}

} // verus!
