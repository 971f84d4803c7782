//! Decoder for the byte stream of a PS/2 keyboard.
//!
//! Three stages, each usable alone: a [`Ps2Decoder`] checks an eleven bit
//! frame and gives its data byte, a [`ScancodeSet`] turns bytes into
//! [`KeyEvent`]s, and an [`EventDecoder`] tracks the modifier keys and asks a
//! [`KeyboardLayout`] for the character of each key press. A [`Keyboard`]
//! joins the three.
//!
//! None of the stages allocates, blocks or performs I/O: each call is one
//! step of a state machine, and the contracts say which.

pub mod event;
pub mod keyboard;
pub mod layouts;
pub mod modifiers;
pub mod ps2;
pub mod scancodes;
pub mod types;

pub use crate::event::{EventDecoder, KeyboardLayout};
pub use crate::keyboard::Keyboard;
pub use crate::modifiers::Modifiers;
pub use crate::ps2::Ps2Decoder;
pub use crate::scancodes::{ScancodeSet, ScancodeSet1, ScancodeSet2};
pub use crate::types::{DecodedKey, Error, HandleControl, KeyCode, KeyEvent, KeyState, PhysicalKeyboard};
