use pc_keyboard::layouts::{Uk105Key, Us104Key};
use pc_keyboard::{
    DecodedKey, HandleControl, KeyCode, KeyEvent, KeyState, Keyboard, KeyboardLayout, ScancodeSet,
    ScancodeSet1, ScancodeSet2,
};

fn add_bytes<L, S>(keyboard: &mut Keyboard<L, S>, test_sequence: &[(u8, Option<KeyEvent>)])
where
    L: KeyboardLayout,
    S: ScancodeSet,
{
    for (byte, expected_key) in test_sequence.iter().cloned() {
        let result = keyboard.add_byte(byte);
        assert_eq!(
            result,
            Ok(expected_key.clone()),
            "0x{:02x} should have given {:?} not {:?}",
            byte,
            expected_key,
            result
        );
    }
}

fn process_keyevents<L, S>(
    keyboard: &mut Keyboard<L, S>,
    test_sequence: &[(KeyEvent, Option<DecodedKey>)],
) where
    L: KeyboardLayout,
    S: ScancodeSet,
{
    for (idx, (event, expected_decode)) in test_sequence.iter().cloned().enumerate() {
        let result = keyboard.process_keyevent(event.clone());
        assert_eq!(
            result,
            expected_decode.clone(),
            "Entry {} {:?} should have given {:?} not {:?}",
            idx,
            event,
            expected_decode,
            result
        );
    }
}

#[test]
fn test_f9() {
    let mut k = Keyboard::new(
        ScancodeSet2::new(),
        Us104Key,
        HandleControl::MapLettersToUnicode,
    );
    // start
    assert_eq!(k.add_bit(false), Ok(None));
    // 8 data bits (LSB first)
    assert_eq!(k.add_bit(true), Ok(None));
    assert_eq!(k.add_bit(false), Ok(None));
    assert_eq!(k.add_bit(false), Ok(None));
    assert_eq!(k.add_bit(false), Ok(None));
    assert_eq!(k.add_bit(false), Ok(None));
    assert_eq!(k.add_bit(false), Ok(None));
    assert_eq!(k.add_bit(false), Ok(None));
    assert_eq!(k.add_bit(false), Ok(None));
    // parity
    assert_eq!(k.add_bit(false), Ok(None));
    // stop
    assert_eq!(
        k.add_bit(true),
        Ok(Some(KeyEvent::new(KeyCode::F9, KeyState::Down)))
    );
}

#[test]
fn test_f9_word() {
    let mut k = Keyboard::new(
        ScancodeSet2::new(),
        Us104Key,
        HandleControl::MapLettersToUnicode,
    );
    assert_eq!(
        k.add_word(0x0402),
        Ok(Some(KeyEvent::new(KeyCode::F9, KeyState::Down)))
    );
}

#[test]
fn test_f9_byte() {
    let mut k = Keyboard::new(
        ScancodeSet2::new(),
        Us104Key,
        HandleControl::MapLettersToUnicode,
    );

    let test_sequence = [(0x01, Some(KeyEvent::new(KeyCode::F9, KeyState::Down)))];
    add_bytes(&mut k, &test_sequence);
}

#[test]
fn test_keyup_keydown() {
    let mut k = Keyboard::new(
        ScancodeSet2::new(),
        Us104Key,
        HandleControl::MapLettersToUnicode,
    );
    let test_sequence = [
        (0x01, Some(KeyEvent::new(KeyCode::F9, KeyState::Down))),
        (0x01, Some(KeyEvent::new(KeyCode::F9, KeyState::Down))),
        (0xF0, None),
        (0x01, Some(KeyEvent::new(KeyCode::F9, KeyState::Up))),
    ];
    add_bytes(&mut k, &test_sequence);
}

#[test]
fn test_f5() {
    let mut k = Keyboard::new(
        ScancodeSet2::new(),
        Us104Key,
        HandleControl::MapLettersToUnicode,
    );
    // start
    assert_eq!(k.add_bit(false), Ok(None));
    // 8 data bits (LSB first)
    assert_eq!(k.add_bit(true), Ok(None));
    assert_eq!(k.add_bit(true), Ok(None));
    assert_eq!(k.add_bit(false), Ok(None));
    assert_eq!(k.add_bit(false), Ok(None));
    assert_eq!(k.add_bit(false), Ok(None));
    assert_eq!(k.add_bit(false), Ok(None));
    assert_eq!(k.add_bit(false), Ok(None));
    assert_eq!(k.add_bit(false), Ok(None));
    // parity
    assert_eq!(k.add_bit(true), Ok(None));
    // stop
    assert_eq!(
        k.add_bit(true),
        Ok(Some(KeyEvent::new(KeyCode::F5, KeyState::Down)))
    );
}

#[test]
fn test_f5_up() {
    let mut k = Keyboard::new(
        ScancodeSet2::new(),
        Us104Key,
        HandleControl::MapLettersToUnicode,
    );
    // Send F0

    // start
    assert_eq!(k.add_bit(false), Ok(None));
    // 8 data bits (LSB first)
    assert_eq!(k.add_bit(false), Ok(None));
    assert_eq!(k.add_bit(false), Ok(None));
    assert_eq!(k.add_bit(false), Ok(None));
    assert_eq!(k.add_bit(false), Ok(None));
    assert_eq!(k.add_bit(true), Ok(None));
    assert_eq!(k.add_bit(true), Ok(None));
    assert_eq!(k.add_bit(true), Ok(None));
    assert_eq!(k.add_bit(true), Ok(None));
    // parity
    assert_eq!(k.add_bit(true), Ok(None));
    // stop
    assert_eq!(k.add_bit(true), Ok(None));

    // Send 03

    // start
    assert_eq!(k.add_bit(false), Ok(None));
    // 8 data bits (LSB first)
    assert_eq!(k.add_bit(true), Ok(None));
    assert_eq!(k.add_bit(true), Ok(None));
    assert_eq!(k.add_bit(false), Ok(None));
    assert_eq!(k.add_bit(false), Ok(None));
    assert_eq!(k.add_bit(false), Ok(None));
    assert_eq!(k.add_bit(false), Ok(None));
    assert_eq!(k.add_bit(false), Ok(None));
    assert_eq!(k.add_bit(false), Ok(None));
    // parity
    assert_eq!(k.add_bit(true), Ok(None));
    // stop
    assert_eq!(
        k.add_bit(true),
        Ok(Some(KeyEvent::new(KeyCode::F5, KeyState::Up)))
    );
}

#[test]
fn test_shift() {
    let mut k = Keyboard::new(
        ScancodeSet2::new(),
        Uk105Key,
        HandleControl::MapLettersToUnicode,
    );
    let test_sequence = [
        // A with left shift held
        (
            KeyEvent::new(KeyCode::LShift, KeyState::Down),
            Some(DecodedKey::RawKey(KeyCode::LShift)),
        ),
        (
            KeyEvent::new(KeyCode::A, KeyState::Down),
            Some(DecodedKey::Unicode('A')),
        ),
        (KeyEvent::new(KeyCode::A, KeyState::Up), None),
        (KeyEvent::new(KeyCode::LShift, KeyState::Up), None),
        // A with no shift
        (
            KeyEvent::new(KeyCode::A, KeyState::Down),
            Some(DecodedKey::Unicode('a')),
        ),
        (KeyEvent::new(KeyCode::A, KeyState::Up), None),
        // A with right shift held
        (
            KeyEvent::new(KeyCode::RShift, KeyState::Down),
            Some(DecodedKey::RawKey(KeyCode::RShift)),
        ),
        (
            KeyEvent::new(KeyCode::A, KeyState::Down),
            Some(DecodedKey::Unicode('A')),
        ),
        (KeyEvent::new(KeyCode::A, KeyState::Up), None),
        (KeyEvent::new(KeyCode::RShift, KeyState::Up), None),
        // Caps lock ON
        (
            KeyEvent::new(KeyCode::CapsLock, KeyState::Down),
            Some(DecodedKey::RawKey(KeyCode::CapsLock)),
        ),
        (KeyEvent::new(KeyCode::CapsLock, KeyState::Up), None),
        // Letters are now caps
        (
            KeyEvent::new(KeyCode::X, KeyState::Down),
            Some(DecodedKey::Unicode('X')),
        ),
        (KeyEvent::new(KeyCode::X, KeyState::Up), None),
        // Unless you press shift
        (
            KeyEvent::new(KeyCode::RShift, KeyState::Down),
            Some(DecodedKey::RawKey(KeyCode::RShift)),
        ),
        (
            KeyEvent::new(KeyCode::A, KeyState::Down),
            Some(DecodedKey::Unicode('a')),
        ),
        (KeyEvent::new(KeyCode::A, KeyState::Up), None),
        (KeyEvent::new(KeyCode::RShift, KeyState::Up), None),
        // Numbers are not shifted
        (
            KeyEvent::new(KeyCode::Key1, KeyState::Down),
            Some(DecodedKey::Unicode('1')),
        ),
        (KeyEvent::new(KeyCode::Key1, KeyState::Up), None),
    ];

    process_keyevents(&mut k, &test_sequence);
}

#[test]
fn test_ctrl() {
    let mut k = Keyboard::new(
        ScancodeSet2::new(),
        Us104Key,
        HandleControl::MapLettersToUnicode,
    );
    let test_sequence = [
        // Normal
        (
            KeyEvent::new(KeyCode::A, KeyState::Down),
            Some(DecodedKey::Unicode('a')),
        ),
        (KeyEvent::new(KeyCode::A, KeyState::Up), None),
        // Left Control
        (
            KeyEvent::new(KeyCode::LControl, KeyState::Down),
            Some(DecodedKey::RawKey(KeyCode::LControl)),
        ),
        (
            KeyEvent::new(KeyCode::A, KeyState::Down),
            Some(DecodedKey::Unicode('\u{0001}')),
        ),
        (KeyEvent::new(KeyCode::LControl, KeyState::Up), None),
        (KeyEvent::new(KeyCode::A, KeyState::Up), None),
        // Normal
        (
            KeyEvent::new(KeyCode::A, KeyState::Down),
            Some(DecodedKey::Unicode('a')),
        ),
        (KeyEvent::new(KeyCode::A, KeyState::Up), None),
        // Right Control
        (
            KeyEvent::new(KeyCode::RControl, KeyState::Down),
            Some(DecodedKey::RawKey(KeyCode::RControl)),
        ),
        (
            KeyEvent::new(KeyCode::A, KeyState::Down),
            Some(DecodedKey::Unicode('\u{0001}')),
        ),
        (KeyEvent::new(KeyCode::RControl, KeyState::Up), None),
        (KeyEvent::new(KeyCode::A, KeyState::Up), None),
    ];
    process_keyevents(&mut k, &test_sequence);
}

#[test]
fn test_numlock() {
    let mut k = Keyboard::new(
        ScancodeSet2::new(),
        Uk105Key,
        HandleControl::MapLettersToUnicode,
    );

    let test_sequence = [
        // Numlock ON by default so we get digits
        (
            KeyEvent::new(KeyCode::Numpad0, KeyState::Down),
            Some(DecodedKey::Unicode('0')),
        ),
        (KeyEvent::new(KeyCode::Numpad0, KeyState::Up), None),
        // Numlock OFF
        (
            KeyEvent::new(KeyCode::NumpadLock, KeyState::Down),
            Some(DecodedKey::RawKey(KeyCode::NumpadLock)),
        ),
        (KeyEvent::new(KeyCode::NumpadLock, KeyState::Up), None),
        // Now KP_0 produces INSERT
        (
            KeyEvent::new(KeyCode::Numpad0, KeyState::Down),
            Some(DecodedKey::RawKey(KeyCode::Insert)),
        ),
        (KeyEvent::new(KeyCode::Numpad0, KeyState::Up), None),
    ];
    process_keyevents(&mut k, &test_sequence);
}

#[test]
fn test_set_1_down_up_down() {
    let mut k = Keyboard::new(
        ScancodeSet1::new(),
        Us104Key,
        HandleControl::MapLettersToUnicode,
    );
    let test_sequence = [
        (0x1e, Some(KeyEvent::new(KeyCode::A, KeyState::Down))),
        (0x9e, Some(KeyEvent::new(KeyCode::A, KeyState::Up))),
        (0x1f, Some(KeyEvent::new(KeyCode::S, KeyState::Down))),
    ];

    add_bytes(&mut k, &test_sequence);
}

#[test]
fn test_set_1_ext_down_up_down() {
    let mut k = Keyboard::new(
        ScancodeSet1::new(),
        Us104Key,
        HandleControl::MapLettersToUnicode,
    );
    let test_sequence = [
        (0xe0, None),
        (
            0x1c,
            Some(KeyEvent::new(KeyCode::NumpadEnter, KeyState::Down)),
        ),
        (0xe0, None),
        (
            0x9c,
            Some(KeyEvent::new(KeyCode::NumpadEnter, KeyState::Up)),
        ),
    ];
    add_bytes(&mut k, &test_sequence);
}

#[test]
fn test_set_2_poweron() {
    let mut k = Keyboard::new(
        ScancodeSet2::new(),
        Us104Key,
        HandleControl::MapLettersToUnicode,
    );
    let test_sequence = [(
        0xAA,
        Some(KeyEvent::new(KeyCode::PowerOnTestOk, KeyState::SingleShot)),
    )];
    add_bytes(&mut k, &test_sequence);
}

#[test]
fn test_set_2_toomanykeys() {
    let mut k = Keyboard::new(
        ScancodeSet2::new(),
        Us104Key,
        HandleControl::MapLettersToUnicode,
    );
    let test_sequence = [(
        0x00,
        Some(KeyEvent::new(KeyCode::TooManyKeys, KeyState::SingleShot)),
    )];
    add_bytes(&mut k, &test_sequence);
}

#[test]
fn test_set_2_down_up() {
    let mut k = Keyboard::new(
        ScancodeSet2::new(),
        Us104Key,
        HandleControl::MapLettersToUnicode,
    );
    let test_sequence = [
        (0x29, Some(KeyEvent::new(KeyCode::Spacebar, KeyState::Down))),
        (0xF0, None),
        (0x29, Some(KeyEvent::new(KeyCode::Spacebar, KeyState::Up))),
        (0x29, Some(KeyEvent::new(KeyCode::Spacebar, KeyState::Down))),
        (0xF0, None),
        (0x29, Some(KeyEvent::new(KeyCode::Spacebar, KeyState::Up))),
        (0x29, Some(KeyEvent::new(KeyCode::Spacebar, KeyState::Down))),
        (0xF0, None),
        (0x29, Some(KeyEvent::new(KeyCode::Spacebar, KeyState::Up))),
    ];
    add_bytes(&mut k, &test_sequence);
}

#[test]
fn test_set_2_ext_down_up() {
    let mut k = Keyboard::new(
        ScancodeSet2::new(),
        Us104Key,
        HandleControl::MapLettersToUnicode,
    );
    let test_sequence = [
        (0xE0, None),
        (0x6C, Some(KeyEvent::new(KeyCode::Home, KeyState::Down))),
        (0xE0, None),
        (0xF0, None),
        (0x6C, Some(KeyEvent::new(KeyCode::Home, KeyState::Up))),
    ];
    add_bytes(&mut k, &test_sequence);
}

#[test]
fn test_pause_set1() {
    let mut k = Keyboard::new(
        ScancodeSet1::new(),
        Uk105Key,
        HandleControl::MapLettersToUnicode,
    );

    // A Pause keypress generates this sequence all in one go. There is no
    // 'Break' code for this key.
    let test_sequence = [
        // rctrl2
        (0xE1, None),
        (
            0x1D,
            Some(KeyEvent {
                code: KeyCode::RControl2,
                state: KeyState::Down,
            }),
        ),
        // Numlock
        (
            0x45,
            Some(KeyEvent {
                code: KeyCode::NumpadLock,
                state: KeyState::Down,
            }),
        ),
        // Release rctrl2
        (0xE1, None),
        (
            0x9D,
            Some(KeyEvent {
                code: KeyCode::RControl2,
                state: KeyState::Up,
            }),
        ),
        // Release Numlock
        (
            0xC5,
            Some(KeyEvent {
                code: KeyCode::NumpadLock,
                state: KeyState::Up,
            }),
        ),
    ];

    add_bytes(&mut k, &test_sequence);
}

#[test]
fn test_pause_set2() {
    let mut k = Keyboard::new(
        ScancodeSet2::new(),
        Uk105Key,
        HandleControl::MapLettersToUnicode,
    );

    // A Pause keypress generates this sequence all in one go. There is no
    // 'Break' code for this key.
    let test_sequence = [
        // rctrl2
        (0xE1, None),
        (
            0x14,
            Some(KeyEvent {
                code: KeyCode::RControl2,
                state: KeyState::Down,
            }),
        ),
        // Numlock
        (
            0x77,
            Some(KeyEvent {
                code: KeyCode::NumpadLock,
                state: KeyState::Down,
            }),
        ),
        // Release rctrl2
        (0xE1, None),
        (0xF0, None),
        (
            0x14,
            Some(KeyEvent {
                code: KeyCode::RControl2,
                state: KeyState::Up,
            }),
        ),
        // Release Numlock
        (0xF0, None),
        (
            0x77,
            Some(KeyEvent {
                code: KeyCode::NumpadLock,
                state: KeyState::Up,
            }),
        ),
    ];
    add_bytes(&mut k, &test_sequence);
}

#[test]
fn test_pause_events() {
    let mut k = Keyboard::new(
        ScancodeSet2::new(),
        Uk105Key,
        HandleControl::MapLettersToUnicode,
    );

    // A Pause keypress generates this sequence all in one go. There is no
    // 'Break' code for this key.
    let test_sequence = [
        // rctrl2
        (
            KeyEvent {
                code: KeyCode::RControl2,
                state: KeyState::Down,
            },
            Some(DecodedKey::RawKey(KeyCode::RControl2)),
        ),
        // Numlock
        (
            KeyEvent {
                code: KeyCode::NumpadLock,
                state: KeyState::Down,
            },
            Some(DecodedKey::RawKey(KeyCode::PauseBreak)),
        ),
        // Release rctrl2
        (
            KeyEvent {
                code: KeyCode::RControl2,
                state: KeyState::Up,
            },
            None,
        ),
        // Release Numlock
        (
            KeyEvent {
                code: KeyCode::NumpadLock,
                state: KeyState::Up,
            },
            None,
        ),
    ];
    process_keyevents(&mut k, &test_sequence);
}

#[test]
fn test_print_screen_set1() {
    let mut k = Keyboard::new(
        ScancodeSet1::new(),
        Uk105Key,
        HandleControl::MapLettersToUnicode,
    );

    // A Print Screen keypress generates this sequence on make and break.
    let test_sequence = [
        // ralt2
        (0xE0, None),
        (
            0x2A,
            Some(KeyEvent {
                code: KeyCode::RAlt2,
                state: KeyState::Down,
            }),
        ),
        // Print Screen
        (0xE0, None),
        (
            0x37,
            Some(KeyEvent {
                code: KeyCode::PrintScreen,
                state: KeyState::Down,
            }),
        ),
        // Release Print Screen
        (0xE0, None),
        (
            0xB7,
            Some(KeyEvent {
                code: KeyCode::PrintScreen,
                state: KeyState::Up,
            }),
        ),
        // Release ralt2
        (0xE0, None),
        (
            0xAA,
            Some(KeyEvent {
                code: KeyCode::RAlt2,
                state: KeyState::Up,
            }),
        ),
    ];
    add_bytes(&mut k, &test_sequence);
}

#[test]
fn test_print_screen_set2() {
    let mut k = Keyboard::new(
        ScancodeSet2::new(),
        Uk105Key,
        HandleControl::MapLettersToUnicode,
    );

    // A Print Screen keypress generates this sequence on make and break.
    let test_sequence = [
        // ralt2
        (0xE0, None),
        (
            0x12,
            Some(KeyEvent {
                code: KeyCode::RAlt2,
                state: KeyState::Down,
            }),
        ),
        // Print Screen
        (0xE0, None),
        (
            0x7C,
            Some(KeyEvent {
                code: KeyCode::PrintScreen,
                state: KeyState::Down,
            }),
        ),
        // Release Print Screen
        (0xE0, None),
        (0xF0, None),
        (
            0x7C,
            Some(KeyEvent {
                code: KeyCode::PrintScreen,
                state: KeyState::Up,
            }),
        ),
        // Release ralt2
        (0xE0, None),
        (0xF0, None),
        (
            0x12,
            Some(KeyEvent {
                code: KeyCode::RAlt2,
                state: KeyState::Up,
            }),
        ),
    ];

    add_bytes(&mut k, &test_sequence);
}

#[test]
fn test_print_screen_events() {
    let mut k = Keyboard::new(
        ScancodeSet2::new(),
        Uk105Key,
        HandleControl::MapLettersToUnicode,
    );

    // A Print Screen keypress generates this sequence on make and break.
    let test_sequence = [
        // ralt2
        (
            KeyEvent {
                code: KeyCode::RAlt2,
                state: KeyState::Down,
            },
            Some(DecodedKey::RawKey(KeyCode::RAlt2)),
        ),
        // Print Screen
        (
            KeyEvent {
                code: KeyCode::PrintScreen,
                state: KeyState::Down,
            },
            Some(DecodedKey::RawKey(KeyCode::PrintScreen)),
        ),
        // Release Print Screen
        (
            KeyEvent {
                code: KeyCode::PrintScreen,
                state: KeyState::Up,
            },
            None,
        ),
        // Release ralt2
        (
            KeyEvent {
                code: KeyCode::RAlt2,
                state: KeyState::Up,
            },
            None,
        ),
    ];

    process_keyevents(&mut k, &test_sequence);
}

#[test]
fn test_modifier_state_shift() {
    let mut k = Keyboard::new(
        ScancodeSet2::new(),
        Uk105Key,
        HandleControl::MapLettersToUnicode,
    );
    assert!(!k.get_modifiers().lshift);

    k.process_keyevent(KeyEvent {
        code: KeyCode::LShift,
        state: KeyState::Down,
    });
    assert!(k.get_modifiers().lshift);

    k.process_keyevent(KeyEvent {
        code: KeyCode::LShift,
        state: KeyState::Up,
    });
    assert!(!k.get_modifiers().lshift);
}
