//! From bytes to key events: the interface of a scancode set, and the two
//! sets that PC keyboards speak.

pub mod set1;
pub mod set2;

use vstd::prelude::*;
use crate::types::{Error, KeyCode, KeyEvent, KeyState};

pub use self::set1::ScancodeSet1;
pub use self::set2::ScancodeSet2;

verus! {

/// The byte that announces a key of the extended table.
pub const EXTENDED_KEY_CODE: u8 = 0xE0;

/// The byte that announces a key of the second extended table.
pub const EXTENDED2_KEY_CODE: u8 = 0xE1;

/// In set 2, the byte that announces a release.
pub const KEY_RELEASE_CODE: u8 = 0xF0;

/// A decoder of scancodes: a state machine that is fed one byte at a time
/// and reports a key event whenever a sequence is complete.
pub trait ScancodeSet {
    /// What the decoder remembers between two bytes.
    type State;

    /// What this decoder remembers of the bytes fed so far.
    spec fn state(&self) -> Self::State;

    /// What a byte fed in a given state is answered with.
    spec fn outcome(state: Self::State, code: u8) -> Result<Option<KeyEvent>, Error>;

    /// The state that a byte fed in a given state leads to.
    spec fn next_state(state: Self::State, code: u8) -> Self::State;

    /// Feeds one byte. The answer is `Ok(None)` in the middle of a
    /// sequence, the event at its end, and an error for a byte that ends no
    /// known sequence.
    fn advance_state(&mut self, code: u8) -> (event: Result<Option<KeyEvent>, Error>)
        ensures
            event == Self::outcome(old(self).state(), code),
            final(self).state() == Self::next_state(old(self).state(), code),
    ;
}

/// The result of a table lookup: the key, or the error for a code that the
/// table does not hold.
pub open spec fn key_or_unknown(key: Option<KeyCode>) -> Result<KeyCode, Error> {
    match key {
        Some(k) => Ok(k),
        None => Err(Error::UnknownKeyCode),
    }
}

/// The outcome of a completed sequence: the event of the key that was
/// looked up, in the given state, or the error for an unknown code.
pub open spec fn event_or_unknown(key: Option<KeyCode>, state: KeyState) -> Result<Option<KeyEvent>, Error> {
    match key {
        Some(k) => Ok(Some(KeyEvent { code: k, state })),
        None => Err(Error::UnknownKeyCode),
    }
}

} // verus!
