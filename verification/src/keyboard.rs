//! The three stages joined: from bits, words or bytes to key events, and
//! from key events to characters.

use vstd::prelude::*;
use crate::event::{key_decoded, modifiers_after, EventDecoder, KeyboardLayout};
use crate::modifiers::Modifiers;
use crate::ps2::{bit_outcome, bits_after, frame_checked, word_bits, Ps2Decoder};
use crate::scancodes::ScancodeSet;
use crate::types::{DecodedKey, Error, HandleControl, KeyEvent};

verus! {

/// What the frame decoder hands to the scancode set for a whole word.
pub open spec fn word_outcome(word: u16) -> Result<Option<u8>, Error> {
    match frame_checked(word_bits(word, 11)) {
        Ok(data) => Ok(Some(data)),
        Err(e) => Err(e),
    }
}

/// What a scancode set in a given state answers to what the frame decoder
/// hands it: a byte is fed to it, an unfinished frame is answered with
/// `Ok(None)`, and an error of the frame is passed on.
pub open spec fn outcome_fed<S: ScancodeSet>(state: S::State, input: Result<Option<u8>, Error>) -> Result<
    Option<KeyEvent>,
    Error,
> {
    match input {
        Ok(Some(byte)) => S::outcome(state, byte),
        Ok(None) => Ok(None),
        Err(e) => Err(e),
    }
}

/// The state of a scancode set after what the frame decoder hands it: only
/// a byte moves it.
pub open spec fn state_fed<S: ScancodeSet>(state: S::State, input: Result<Option<u8>, Error>) -> S::State {
    match input {
        Ok(Some(byte)) => S::next_state(state, byte),
        _ => state,
    }
}

/// A frame decoder, a scancode set and an event decoder in one value.
#[derive(Debug)]
pub struct Keyboard<L: KeyboardLayout, S: ScancodeSet> {
    ps2_decoder: Ps2Decoder,
    scancode_set: S,
    event_decoder: EventDecoder<L>,
}

impl<L: KeyboardLayout, S: ScancodeSet> Keyboard<L, S> {
    /// The bits of the frame in flight.
    pub closed spec fn frame_bits(&self) -> Seq<bool> {
        self.ps2_decoder@
    }

    /// What the scancode set remembers of the bytes fed so far.
    pub closed spec fn scancode_state(&self) -> S::State {
        self.scancode_set.state()
    }

    /// The event decoder.
    pub closed spec fn events(&self) -> EventDecoder<L> {
        self.event_decoder
    }

    /// A keyboard with an empty frame decoder, the given scancode set as
    /// it is, and a fresh event decoder for the given layout.
    pub fn new(scancode_set: S, layout: L, handle_ctrl: HandleControl) -> (keyboard: Keyboard<L, S>)
        ensures
            keyboard.frame_bits() == Seq::<bool>::empty(),
            keyboard.scancode_state() == scancode_set.state(),
            keyboard.events().layout() == layout,
            keyboard.events().ctrl_handling() == handle_ctrl,
            keyboard.events().modifiers() == Modifiers::released(true),
    {
        Keyboard {
            ps2_decoder: Ps2Decoder::new(),
            scancode_set,
            event_decoder: EventDecoder::new(layout, handle_ctrl),
        }
    }

    /// The modifiers in force.
    pub fn get_modifiers(&self) -> (m: &Modifiers)
        ensures
            *m == self.events().modifiers(),
    {
        self.event_decoder.get_modifiers()
    }

    /// Changes how letters are decoded while a control key is held.
    pub fn set_ctrl_handling(&mut self, new_value: HandleControl)
        ensures
            final(self).events().ctrl_handling() == new_value,
            final(self).events().modifiers() == old(self).events().modifiers(),
            final(self).events().layout() == old(self).events().layout(),
            final(self).frame_bits() == old(self).frame_bits(),
            final(self).scancode_state() == old(self).scancode_state(),
    {
        self.event_decoder.set_ctrl_handling(new_value);
    }

    /// How letters are decoded while a control key is held.
    pub fn get_ctrl_handling(&self) -> (mode: HandleControl)
        ensures
            mode == self.events().ctrl_handling(),
    {
        self.event_decoder.get_ctrl_handling()
    }

    /// Forgets the bits of a frame in flight. The scancode set and the
    /// event decoder are not touched.
    pub fn clear(&mut self)
        ensures
            final(self).frame_bits() == Seq::<bool>::empty(),
            final(self).scancode_state() == old(self).scancode_state(),
            final(self).events() == old(self).events(),
    {
        self.ps2_decoder.clear();
    }

    /// Checks a whole frame, packed into the low eleven bits of `word` with
    /// the start bit lowest, and feeds its data byte to the scancode set.
    /// A frame that fails a check gives that error and feeds nothing.
    pub fn add_word(&mut self, word: u16) -> (event: Result<Option<KeyEvent>, Error>)
        ensures
            event == outcome_fed::<S>(old(self).scancode_state(), word_outcome(word)),
            final(self).scancode_state() == state_fed::<S>(old(self).scancode_state(), word_outcome(word)),
            final(self).frame_bits() == old(self).frame_bits(),
            final(self).events() == old(self).events(),
    {
        match self.ps2_decoder.add_word(word) {
            Ok(byte) => self.add_byte(byte),
            Err(e) => Err(e),
        }
    }

    /// Feeds one byte, taken to be the data of a frame that passed its
    /// checks, to the scancode set.
    pub fn add_byte(&mut self, byte: u8) -> (event: Result<Option<KeyEvent>, Error>)
        ensures
            event == S::outcome(old(self).scancode_state(), byte),
            final(self).scancode_state() == S::next_state(old(self).scancode_state(), byte),
            final(self).frame_bits() == old(self).frame_bits(),
            final(self).events() == old(self).events(),
    {
        self.scancode_set.advance_state(byte)
    }

    /// Takes one bit. The eleventh bit of a frame completes it, and its
    /// data byte is fed to the scancode set; a frame that fails a check
    /// gives that error and feeds nothing.
    pub fn add_bit(&mut self, bit: bool) -> (event: Result<Option<KeyEvent>, Error>)
        ensures
            old(self).frame_bits().len() <= 10,
            event == outcome_fed::<S>(old(self).scancode_state(), bit_outcome(old(self).frame_bits(), bit)),
            final(self).scancode_state() == state_fed::<S>(
                old(self).scancode_state(),
                bit_outcome(old(self).frame_bits(), bit),
            ),
            final(self).frame_bits() == bits_after(old(self).frame_bits(), bit),
            final(self).events() == old(self).events(),
    {
        match self.ps2_decoder.add_bit(bit) {
            Ok(Some(byte)) => self.scancode_set.advance_state(byte),
            Ok(None) => Ok(None),
            Err(e) => Err(e),
        }
    }

    /// Takes one key event: the modifiers move as [`modifiers_after`]
    /// says, and the result is what [`key_decoded`] gives under the
    /// modifiers that were in force before the event.
    pub fn process_keyevent(&mut self, ev: KeyEvent) -> (key: Option<DecodedKey>)
        ensures
            key == key_decoded(
                old(self).events().layout(),
                old(self).events().ctrl_handling(),
                old(self).events().modifiers(),
                ev,
            ),
            final(self).events().modifiers() == modifiers_after(old(self).events().modifiers(), ev),
            final(self).events().ctrl_handling() == old(self).events().ctrl_handling(),
            final(self).events().layout() == old(self).events().layout(),
            final(self).frame_bits() == old(self).frame_bits(),
            final(self).scancode_state() == old(self).scancode_state(),
    {
        self.event_decoder.process_keyevent(ev)
    }
}

} // verus!
