use pc_keyboard::layouts::{
    AnyLayout, Azerty, DVP104Key, De104Key, De105Key, Dvorak104Key, FiSe105Key, Jis109Key, No105Key,
    Uk105Key, Us104Key,
};
use pc_keyboard::{
    DecodedKey, Error, EventDecoder, HandleControl, KeyCode, KeyEvent, KeyState, Keyboard,
    KeyboardLayout, Modifiers, PhysicalKeyboard, Ps2Decoder, ScancodeSet, ScancodeSet1, ScancodeSet2,
};

/// The eleven bits of the frame that carries `data`, in the order sent.
fn frame_bits(data: u8) -> Vec<bool> {
    let mut bits = vec![false];
    for i in 0..8 {
        bits.push((data >> i) & 1 == 1);
    }
    bits.push(data.count_ones() % 2 == 0);
    bits.push(true);
    bits
}

fn feed(decoder: &mut Ps2Decoder, bits: &[bool]) -> Vec<Result<Option<u8>, Error>> {
    bits.iter().map(|bit| decoder.add_bit(*bit)).collect()
}

fn pack(bits: &[bool]) -> u16 {
    let mut word = 0u16;
    for (i, bit) in bits.iter().enumerate() {
        if *bit {
            word |= 1 << i;
        }
    }
    word
}

fn no_modifiers() -> Modifiers {
    Modifiers {
        lshift: false,
        rshift: false,
        lctrl: false,
        rctrl: false,
        numlock: true,
        capslock: false,
        lalt: false,
        ralt: false,
        rctrl2: false,
    }
}

fn down(code: KeyCode) -> KeyEvent {
    KeyEvent::new(code, KeyState::Down)
}

fn up(code: KeyCode) -> KeyEvent {
    KeyEvent::new(code, KeyState::Up)
}

#[test]
fn frame_of_one_decodes_to_one() {
    let mut decoder = Ps2Decoder::new();
    let bits = [false, true, false, false, false, false, false, false, false, false, true];
    let outcomes = feed(&mut decoder, &bits);
    for outcome in &outcomes[..10] {
        assert_eq!(*outcome, Ok(None));
    }
    assert_eq!(outcomes[10], Ok(Some(0x01)));
}

#[test]
fn every_byte_round_trips_bit_by_bit() {
    let mut decoder = Ps2Decoder::new();
    for data in 0..=255u8 {
        let outcomes = feed(&mut decoder, &frame_bits(data));
        for outcome in &outcomes[..10] {
            assert_eq!(*outcome, Ok(None));
        }
        assert_eq!(outcomes[10], Ok(Some(data)));
    }
}

#[test]
fn every_byte_round_trips_as_a_word() {
    let decoder = Ps2Decoder::new();
    for data in 0..=255u8 {
        assert_eq!(decoder.add_word(pack(&frame_bits(data))), Ok(data));
    }
}

#[test]
fn word_of_f9_is_checked() {
    let decoder = Ps2Decoder::default();
    assert_eq!(decoder.add_word(0x0402), Ok(0x01));
    assert_eq!(decoder.add_word(0x0602), Err(Error::ParityError));
}

#[test]
fn bits_above_the_frame_are_ignored() {
    let decoder = Ps2Decoder::new();
    assert_eq!(decoder.add_word(0xF800 | 0x0402), Ok(0x01));
}

#[test]
fn flipped_data_bit_is_a_parity_error() {
    let mut decoder = Ps2Decoder::new();
    for data in [0x00u8, 0x01, 0x5A, 0xF0, 0xFF] {
        for flipped in 1..=8 {
            let mut bits = frame_bits(data);
            bits[flipped] = !bits[flipped];
            let outcomes = feed(&mut decoder, &bits);
            for outcome in &outcomes[..10] {
                assert_eq!(*outcome, Ok(None));
            }
            assert_eq!(outcomes[10], Err(Error::ParityError));
            // The decoder is empty again: a clean frame decodes at once.
            let clean = feed(&mut decoder, &frame_bits(data));
            assert_eq!(clean[10], Ok(Some(data)));
        }
    }
}

#[test]
fn set_start_bit_is_reported() {
    let mut decoder = Ps2Decoder::new();
    let mut bits = frame_bits(0x1C);
    bits[0] = true;
    assert_eq!(feed(&mut decoder, &bits)[10], Err(Error::BadStartBit));
    assert_eq!(decoder.add_word(pack(&bits)), Err(Error::BadStartBit));
    assert_eq!(feed(&mut decoder, &frame_bits(0x1C))[10], Ok(Some(0x1C)));
}

#[test]
fn clear_stop_bit_is_reported() {
    let mut decoder = Ps2Decoder::new();
    let mut bits = frame_bits(0x1C);
    bits[10] = false;
    assert_eq!(feed(&mut decoder, &bits)[10], Err(Error::BadStopBit));
    assert_eq!(decoder.add_word(pack(&bits)), Err(Error::BadStopBit));
    assert_eq!(feed(&mut decoder, &frame_bits(0x1C))[10], Ok(Some(0x1C)));
}

#[test]
fn start_bit_is_checked_before_stop_bit_and_parity() {
    let decoder = Ps2Decoder::new();
    let mut bits = frame_bits(0x1C);
    bits[0] = true;
    bits[9] = !bits[9];
    bits[10] = false;
    assert_eq!(decoder.add_word(pack(&bits)), Err(Error::BadStartBit));
    bits[0] = false;
    assert_eq!(decoder.add_word(pack(&bits)), Err(Error::BadStopBit));
    bits[10] = true;
    assert_eq!(decoder.add_word(pack(&bits)), Err(Error::ParityError));
}

#[test]
fn clear_discards_a_partial_frame() {
    let mut decoder = Ps2Decoder::new();
    for bit in [false, true, true, false, true] {
        assert_eq!(decoder.add_bit(bit), Ok(None));
    }
    decoder.clear();
    assert_eq!(feed(&mut decoder, &frame_bits(0x76))[10], Ok(Some(0x76)));
}

#[test]
fn keyboard_clear_discards_a_partial_frame() {
    let mut k = Keyboard::new(ScancodeSet2::new(), Us104Key, HandleControl::Ignore);
    for bit in [false, true, true] {
        assert_eq!(k.add_bit(bit), Ok(None));
    }
    k.clear();
    let bits = frame_bits(0x76);
    for bit in &bits[..10] {
        assert_eq!(k.add_bit(*bit), Ok(None));
    }
    assert_eq!(k.add_bit(bits[10]), Ok(Some(down(KeyCode::Escape))));
}

#[test]
fn keyboard_passes_frame_errors_on() {
    let mut k = Keyboard::new(ScancodeSet2::new(), Us104Key, HandleControl::Ignore);
    assert_eq!(k.add_word(0x0403), Err(Error::BadStartBit));
    assert_eq!(k.add_word(0x0002), Err(Error::BadStopBit));
    assert_eq!(k.add_word(0x0602), Err(Error::ParityError));
    // A failed frame feeds nothing to the scancode set.
    assert_eq!(k.add_byte(0xF0), Ok(None));
    assert_eq!(k.add_word(0x0602), Err(Error::ParityError));
    assert_eq!(k.add_word(0x0402), Ok(Some(up(KeyCode::F9))));
}

#[test]
fn set1_make_and_break_mirror_each_other() {
    let tables: [fn(u8) -> Result<KeyCode, Error>; 3] = [
        ScancodeSet1::map_scancode,
        ScancodeSet1::map_extended_scancode,
        ScancodeSet1::map_extended2_scancode,
    ];
    let prefixes: [Option<u8>; 3] = [None, Some(0xE0), Some(0xE1)];
    let mut mapped = 0;
    for (table, prefix) in tables.iter().zip(prefixes) {
        for make in 0x00..0x80u8 {
            if let Ok(key) = table(make) {
                mapped += 1;
                let mut set = ScancodeSet1::new();
                if let Some(p) = prefix {
                    assert_eq!(set.advance_state(p), Ok(None));
                }
                assert_eq!(set.advance_state(make), Ok(Some(down(key))));
                if let Some(p) = prefix {
                    assert_eq!(set.advance_state(p), Ok(None));
                }
                assert_eq!(set.advance_state(make | 0x80), Ok(Some(up(key))));
            }
        }
    }
    assert_eq!(mapped, 87 + 33 + 1);
}

#[test]
fn set2_release_prefix_turns_a_press_into_a_release() {
    let mut released = 0;
    for code in 0x00..=0xFFu8 {
        if let Ok(key) = ScancodeSet2::map_scancode(code) {
            let mut set = ScancodeSet2::new();
            let alone = set.advance_state(code);
            if code == 0x00 || code == 0xAA {
                assert_eq!(alone, Ok(Some(KeyEvent::new(key, KeyState::SingleShot))));
            } else {
                assert_eq!(alone, Ok(Some(down(key))));
            }
            assert_eq!(set.advance_state(0xF0), Ok(None));
            assert_eq!(set.advance_state(code), Ok(Some(up(key))));
            released += 1;
        }
    }
    assert_eq!(released, 94);
}

#[test]
fn set2_extended_release_prefix() {
    for code in 0x00..=0xFFu8 {
        if let Ok(key) = ScancodeSet2::map_extended_scancode(code) {
            let mut set = ScancodeSet2::new();
            assert_eq!(set.advance_state(0xE0), Ok(None));
            assert_eq!(set.advance_state(code), Ok(Some(down(key))));
            assert_eq!(set.advance_state(0xE0), Ok(None));
            assert_eq!(set.advance_state(0xF0), Ok(None));
            assert_eq!(set.advance_state(code), Ok(Some(up(key))));
        }
    }
    assert_eq!(ScancodeSet2::map_extended2_scancode(0x14), Ok(KeyCode::RControl2));
    assert_eq!(ScancodeSet2::map_extended2_scancode(0x77), Err(Error::UnknownKeyCode));
}

#[test]
fn set1_unknown_byte_resets() {
    for prefix in [None, Some(0xE0u8), Some(0xE1)] {
        let mut set = ScancodeSet1::default();
        if let Some(p) = prefix {
            assert_eq!(set.advance_state(p), Ok(None));
        }
        assert_eq!(set.advance_state(0x7F), Err(Error::UnknownKeyCode));
        assert_eq!(set.advance_state(0x1E), Ok(Some(down(KeyCode::A))));
        assert_eq!(set.advance_state(0x9E), Ok(Some(up(KeyCode::A))));
    }
}

#[test]
fn set2_unknown_byte_resets() {
    let prefixes: [&[u8]; 6] = [&[], &[0xE0], &[0xE1], &[0xF0], &[0xE0, 0xF0], &[0xE1, 0xF0]];
    for prefix in prefixes {
        let mut set = ScancodeSet2::default();
        for p in prefix {
            assert_eq!(set.advance_state(*p), Ok(None));
        }
        assert_eq!(set.advance_state(0x02), Err(Error::UnknownKeyCode));
        assert_eq!(set.advance_state(0x1C), Ok(Some(down(KeyCode::A))));
    }
}

#[test]
fn set2_release_prefix_is_no_key() {
    let mut set = ScancodeSet2::new();
    assert_eq!(set.advance_state(0xF0), Ok(None));
    assert_eq!(set.advance_state(0xF0), Err(Error::UnknownKeyCode));
    assert_eq!(set.advance_state(0x76), Ok(Some(down(KeyCode::Escape))));
}

#[test]
fn pause_is_hidden_control_then_num_lock() {
    for numlock_on in [true, false] {
        let mut decoder = EventDecoder::new(Us104Key, HandleControl::Ignore);
        if !numlock_on {
            decoder.process_keyevent(down(KeyCode::NumpadLock));
            decoder.process_keyevent(up(KeyCode::NumpadLock));
        }
        assert_eq!(decoder.get_modifiers().numlock, numlock_on);
        assert_eq!(
            decoder.process_keyevent(down(KeyCode::RControl2)),
            Some(DecodedKey::RawKey(KeyCode::RControl2))
        );
        assert_eq!(
            decoder.process_keyevent(down(KeyCode::NumpadLock)),
            Some(DecodedKey::RawKey(KeyCode::PauseBreak))
        );
        assert_eq!(decoder.get_modifiers().numlock, numlock_on);
        assert_eq!(decoder.process_keyevent(up(KeyCode::RControl2)), None);
        assert_eq!(decoder.process_keyevent(up(KeyCode::NumpadLock)), None);
        assert_eq!(decoder.get_modifiers().numlock, numlock_on);
        assert!(!decoder.get_modifiers().rctrl2);
    }
}

#[test]
fn pause_bytes_of_set2_decode_to_pause() {
    let mut k = Keyboard::new(ScancodeSet2::new(), Us104Key, HandleControl::Ignore);
    let mut decoded = Vec::new();
    for byte in [0xE1u8, 0x14, 0x77, 0xE1, 0xF0, 0x14, 0xF0, 0x77] {
        if let Some(ev) = k.add_byte(byte).unwrap() {
            decoded.push(k.process_keyevent(ev));
        }
    }
    assert_eq!(
        decoded,
        vec![
            Some(DecodedKey::RawKey(KeyCode::RControl2)),
            Some(DecodedKey::RawKey(KeyCode::PauseBreak)),
            None,
            None,
        ]
    );
    assert!(k.get_modifiers().numlock);
}

#[test]
fn shift_inverts_caps_lock() {
    let mut decoder = EventDecoder::new(Us104Key, HandleControl::MapLettersToUnicode);
    decoder.process_keyevent(down(KeyCode::LShift));
    assert_eq!(decoder.process_keyevent(down(KeyCode::A)), Some(DecodedKey::Unicode('A')));
    decoder.process_keyevent(up(KeyCode::LShift));
    assert_eq!(decoder.process_keyevent(down(KeyCode::A)), Some(DecodedKey::Unicode('a')));
    decoder.process_keyevent(down(KeyCode::CapsLock));
    decoder.process_keyevent(up(KeyCode::CapsLock));
    assert_eq!(decoder.process_keyevent(down(KeyCode::A)), Some(DecodedKey::Unicode('A')));
    decoder.process_keyevent(down(KeyCode::LShift));
    assert_eq!(decoder.process_keyevent(down(KeyCode::A)), Some(DecodedKey::Unicode('a')));
}

#[test]
fn modifier_keys_set_and_clear_their_flags() {
    let mut decoder = EventDecoder::new(Us104Key, HandleControl::Ignore);
    let keys = [
        KeyCode::LShift,
        KeyCode::RShift,
        KeyCode::LControl,
        KeyCode::RControl,
        KeyCode::LAlt,
        KeyCode::RAltGr,
        KeyCode::RControl2,
    ];
    let flags = |m: &Modifiers| [m.lshift, m.rshift, m.lctrl, m.rctrl, m.lalt, m.ralt, m.rctrl2];
    assert_eq!(*decoder.get_modifiers(), no_modifiers());
    for (i, key) in keys.iter().enumerate() {
        assert_eq!(decoder.process_keyevent(down(*key)), Some(DecodedKey::RawKey(*key)));
        let mut expected = [false; 7];
        expected[i] = true;
        assert_eq!(flags(decoder.get_modifiers()), expected);
        assert_eq!(decoder.process_keyevent(KeyEvent::new(*key, KeyState::SingleShot)), None);
        assert_eq!(flags(decoder.get_modifiers()), expected);
        assert_eq!(decoder.process_keyevent(up(*key)), None);
        assert_eq!(*decoder.get_modifiers(), no_modifiers());
    }
}

#[test]
fn lock_keys_toggle_on_press_only() {
    let mut decoder = EventDecoder::new(Us104Key, HandleControl::Ignore);
    assert!(decoder.get_modifiers().numlock);
    assert!(!decoder.get_modifiers().capslock);
    assert_eq!(
        decoder.process_keyevent(down(KeyCode::CapsLock)),
        Some(DecodedKey::RawKey(KeyCode::CapsLock))
    );
    assert!(decoder.get_modifiers().capslock);
    assert_eq!(decoder.process_keyevent(up(KeyCode::CapsLock)), None);
    assert!(decoder.get_modifiers().capslock);
    assert_eq!(
        decoder.process_keyevent(down(KeyCode::NumpadLock)),
        Some(DecodedKey::RawKey(KeyCode::NumpadLock))
    );
    assert!(!decoder.get_modifiers().numlock);
    assert_eq!(decoder.process_keyevent(up(KeyCode::NumpadLock)), None);
    assert!(!decoder.get_modifiers().numlock);
}

#[test]
fn releases_and_signals_of_other_keys_decode_to_nothing() {
    let mut decoder = EventDecoder::new(Us104Key, HandleControl::Ignore);
    assert_eq!(decoder.process_keyevent(up(KeyCode::A)), None);
    assert_eq!(
        decoder.process_keyevent(KeyEvent::new(KeyCode::PowerOnTestOk, KeyState::SingleShot)),
        None
    );
    assert_eq!(*decoder.get_modifiers(), no_modifiers());
    assert_eq!(
        decoder.process_keyevent(down(KeyCode::F1)),
        Some(DecodedKey::RawKey(KeyCode::F1))
    );
}

#[test]
fn ctrl_handling_can_be_changed() {
    let mut k = Keyboard::new(ScancodeSet1::new(), Us104Key, HandleControl::Ignore);
    assert_eq!(k.get_ctrl_handling(), HandleControl::Ignore);
    k.process_keyevent(down(KeyCode::LControl));
    assert_eq!(k.process_keyevent(down(KeyCode::C)), Some(DecodedKey::Unicode('c')));
    k.set_ctrl_handling(HandleControl::MapLettersToUnicode);
    assert_eq!(k.get_ctrl_handling(), HandleControl::MapLettersToUnicode);
    assert!(k.get_modifiers().lctrl);
    assert_eq!(k.process_keyevent(down(KeyCode::C)), Some(DecodedKey::Unicode('\u{0003}')));

    let mut decoder = EventDecoder::new(Us104Key, HandleControl::MapLettersToUnicode);
    assert_eq!(decoder.get_ctrl_handling(), HandleControl::MapLettersToUnicode);
    decoder.set_ctrl_handling(HandleControl::Ignore);
    assert_eq!(decoder.get_ctrl_handling(), HandleControl::Ignore);
}

#[test]
fn change_layout_keeps_the_modifiers() {
    let mut decoder = EventDecoder::new(AnyLayout::Us104Key(Us104Key), HandleControl::Ignore);
    decoder.process_keyevent(down(KeyCode::RShift));
    assert_eq!(decoder.process_keyevent(down(KeyCode::Key2)), Some(DecodedKey::Unicode('@')));
    decoder.change_layout(AnyLayout::Uk105Key(Uk105Key));
    assert!(decoder.get_modifiers().rshift);
    assert_eq!(decoder.process_keyevent(down(KeyCode::Key2)), Some(DecodedKey::Unicode('"')));
}

#[test]
fn default_modifiers_are_all_off() {
    let m = Modifiers::default();
    assert_eq!(m, Modifiers { numlock: false, ..no_modifiers() });
    assert!(!m.is_shifted() && !m.is_ctrl() && !m.is_alt() && !m.is_altgr() && !m.is_caps());
}

#[test]
fn modifier_predicates() {
    let m = Modifiers { rshift: true, ..no_modifiers() };
    assert!(m.is_shifted() && m.is_caps());
    let m = Modifiers { lshift: true, capslock: true, ..no_modifiers() };
    assert!(m.is_shifted() && !m.is_caps());
    let m = Modifiers { rctrl: true, ..no_modifiers() };
    assert!(m.is_ctrl() && !m.is_altgr());
    let m = Modifiers { lalt: true, ..no_modifiers() };
    assert!(m.is_alt() && !m.is_altgr());
    let m = Modifiers { lalt: true, lctrl: true, ..no_modifiers() };
    assert!(m.is_alt() && m.is_altgr());
    let m = Modifiers { ralt: true, ..no_modifiers() };
    assert!(m.is_alt() && m.is_altgr());
    let m = Modifiers { rctrl2: true, ..no_modifiers() };
    assert!(!m.is_ctrl());
}

#[test]
fn letter_helpers() {
    let plain = no_modifiers();
    let caps = Modifiers { capslock: true, ..no_modifiers() };
    let ctrl = Modifiers { rctrl: true, ..no_modifiers() };
    let altgr = Modifiers { ralt: true, ..no_modifiers() };
    let altgr_shift = Modifiers { ralt: true, lshift: true, ..no_modifiers() };
    let map = HandleControl::MapLettersToUnicode;
    let ignore = HandleControl::Ignore;

    assert_eq!(plain.handle_ascii_2('Z', map), DecodedKey::Unicode('z'));
    assert_eq!(caps.handle_ascii_2('Z', map), DecodedKey::Unicode('Z'));
    assert_eq!(ctrl.handle_ascii_2('Z', map), DecodedKey::Unicode('\u{001A}'));
    assert_eq!(ctrl.handle_ascii_2('A', map), DecodedKey::Unicode('\u{0001}'));
    assert_eq!(ctrl.handle_ascii_2('Z', ignore), DecodedKey::Unicode('z'));

    assert_eq!(plain.handle_letter2('é', 'É'), DecodedKey::Unicode('é'));
    assert_eq!(caps.handle_letter2('é', 'É'), DecodedKey::Unicode('É'));
    assert_eq!(ctrl.handle_letter2('é', 'É'), DecodedKey::Unicode('é'));

    assert_eq!(plain.handle_ascii_3('E', '€', map), DecodedKey::Unicode('e'));
    assert_eq!(caps.handle_ascii_3('E', '€', map), DecodedKey::Unicode('E'));
    assert_eq!(altgr.handle_ascii_3('E', '€', map), DecodedKey::Unicode('€'));
    assert_eq!(altgr_shift.handle_ascii_3('E', '€', map), DecodedKey::Unicode('€'));
    assert_eq!(ctrl.handle_ascii_3('E', '€', map), DecodedKey::Unicode('\u{0005}'));
    assert_eq!(ctrl.handle_ascii_3('E', '€', ignore), DecodedKey::Unicode('e'));

    assert_eq!(plain.handle_ascii_4('E', 'é', 'É', map), DecodedKey::Unicode('e'));
    assert_eq!(caps.handle_ascii_4('E', 'é', 'É', map), DecodedKey::Unicode('E'));
    assert_eq!(altgr.handle_ascii_4('E', 'é', 'É', map), DecodedKey::Unicode('é'));
    assert_eq!(altgr_shift.handle_ascii_4('E', 'é', 'É', map), DecodedKey::Unicode('É'));
    assert_eq!(ctrl.handle_ascii_4('E', 'é', 'É', map), DecodedKey::Unicode('\u{0005}'));
    assert_eq!(ctrl.handle_ascii_4('E', 'é', 'É', ignore), DecodedKey::Unicode('e'));
}

#[test]
fn symbol_and_numpad_helpers() {
    let plain = no_modifiers();
    let shift = Modifiers { lshift: true, ..no_modifiers() };
    let caps = Modifiers { capslock: true, ..no_modifiers() };
    let altgr = Modifiers { ralt: true, lshift: true, ..no_modifiers() };
    let ctrl_alt = Modifiers { lctrl: true, lalt: true, ..no_modifiers() };
    let unlocked = Modifiers { numlock: false, ..no_modifiers() };

    assert_eq!(plain.handle_symbol2('1', '!'), DecodedKey::Unicode('1'));
    assert_eq!(shift.handle_symbol2('1', '!'), DecodedKey::Unicode('!'));
    assert_eq!(caps.handle_symbol2('1', '!'), DecodedKey::Unicode('1'));

    assert_eq!(plain.handle_symbol3('4', '$', '€'), DecodedKey::Unicode('4'));
    assert_eq!(shift.handle_symbol3('4', '$', '€'), DecodedKey::Unicode('$'));
    assert_eq!(altgr.handle_symbol3('4', '$', '€'), DecodedKey::Unicode('€'));
    assert_eq!(ctrl_alt.handle_symbol3('4', '$', '€'), DecodedKey::Unicode('€'));

    assert_eq!(plain.handle_num_pad('7', KeyCode::Home), DecodedKey::Unicode('7'));
    assert_eq!(unlocked.handle_num_pad('7', KeyCode::Home), DecodedKey::RawKey(KeyCode::Home));
    assert_eq!(plain.handle_num_del('.', '\u{007f}'), DecodedKey::Unicode('.'));
    assert_eq!(unlocked.handle_num_del('.', '\u{007f}'), DecodedKey::Unicode('\u{007f}'));
}

#[test]
fn layouts_name_their_keyboards() {
    assert!(matches!(Us104Key.get_physical(), PhysicalKeyboard::Ansi));
    assert!(matches!(Dvorak104Key.get_physical(), PhysicalKeyboard::Ansi));
    assert!(matches!(DVP104Key.get_physical(), PhysicalKeyboard::Ansi));
    assert!(matches!(De104Key.get_physical(), PhysicalKeyboard::Ansi));
    assert!(matches!(Uk105Key.get_physical(), PhysicalKeyboard::Iso));
    assert!(matches!(Azerty.get_physical(), PhysicalKeyboard::Iso));
    assert!(matches!(De105Key.get_physical(), PhysicalKeyboard::Iso));
    assert!(matches!(No105Key.get_physical(), PhysicalKeyboard::Iso));
    assert!(matches!(FiSe105Key.get_physical(), PhysicalKeyboard::Iso));
    assert!(matches!(Jis109Key.get_physical(), PhysicalKeyboard::Jis));
    assert!(matches!(AnyLayout::Jis109Key(Jis109Key).get_physical(), PhysicalKeyboard::Jis));
    assert!(matches!((&AnyLayout::Us104Key(Us104Key)).get_physical(), PhysicalKeyboard::Ansi));
}

#[test]
fn layouts_differ_where_they_should() {
    let plain = no_modifiers();
    let shift = Modifiers { lshift: true, ..no_modifiers() };
    let altgr = Modifiers { ralt: true, ..no_modifiers() };
    let unlocked = Modifiers { numlock: false, ..no_modifiers() };
    let hc = HandleControl::MapLettersToUnicode;
    let u = DecodedKey::Unicode;

    assert_eq!(Us104Key.map_keycode(KeyCode::Oem7, &shift, hc), u('|'));
    assert_eq!(Us104Key.map_keycode(KeyCode::Numpad8, &unlocked, hc), DecodedKey::RawKey(KeyCode::ArrowUp));
    assert_eq!(Us104Key.map_keycode(KeyCode::NumpadPeriod, &unlocked, hc), u('\u{007f}'));
    assert_eq!(Us104Key.map_keycode(KeyCode::LWin, &plain, hc), DecodedKey::RawKey(KeyCode::LWin));

    assert_eq!(Uk105Key.map_keycode(KeyCode::Key4, &altgr, hc), u('€'));
    assert_eq!(Uk105Key.map_keycode(KeyCode::Oem8, &shift, hc), u('¬'));
    assert_eq!(Uk105Key.map_keycode(KeyCode::Key5, &shift, hc), u('%'));

    assert_eq!(De105Key.map_keycode(KeyCode::Y, &plain, hc), u('z'));
    assert_eq!(De105Key.map_keycode(KeyCode::Q, &altgr, hc), u('@'));
    assert_eq!(De105Key.map_keycode(KeyCode::Oem4, &shift, hc), u('Ü'));
    assert_eq!(De105Key.map_keycode(KeyCode::Key7, &altgr, hc), u('{'));

    assert_eq!(De104Key.map_keycode(KeyCode::Z, &shift, hc), u('Y'));
    assert_eq!(De104Key.map_keycode(KeyCode::E, &altgr, hc), u('€'));
    assert_eq!(De104Key.map_keycode(KeyCode::Oem5, &altgr, hc), u('|'));
    assert_eq!(De104Key.map_keycode(KeyCode::OemMinus, &plain, hc), u('ß'));

    assert_eq!(No105Key.map_keycode(KeyCode::Oem1, &plain, hc), u('ø'));
    assert_eq!(No105Key.map_keycode(KeyCode::NumpadPeriod, &plain, hc), u(','));
    assert_eq!(No105Key.map_keycode(KeyCode::NumpadPeriod, &unlocked, hc), u('\u{007f}'));
    assert_eq!(FiSe105Key.map_keycode(KeyCode::Oem3, &shift, hc), u('Ä'));
    assert_eq!(FiSe105Key.map_keycode(KeyCode::Key5, &altgr, hc), u('€'));
    assert_eq!(FiSe105Key.map_keycode(KeyCode::NumpadPeriod, &plain, hc), u(','));

    assert_eq!(Dvorak104Key.map_keycode(KeyCode::S, &plain, hc), u('o'));
    assert_eq!(Dvorak104Key.map_keycode(KeyCode::Q, &shift, hc), u('"'));
    assert_eq!(DVP104Key.map_keycode(KeyCode::Key1, &plain, hc), u('&'));
    assert_eq!(DVP104Key.map_keycode(KeyCode::Key1, &shift, hc), u('%'));

    assert_eq!(Jis109Key.map_keycode(KeyCode::Oem13, &plain, hc), u('¥'));
    assert_eq!(Jis109Key.map_keycode(KeyCode::Oem8, &plain, hc), DecodedKey::RawKey(KeyCode::Oem8));
    assert_eq!(Jis109Key.map_keycode(KeyCode::Key2, &shift, hc), u('"'));

    assert_eq!(Azerty.map_keycode(KeyCode::Q, &plain, hc), u('a'));
    assert_eq!(Azerty.map_keycode(KeyCode::Key2, &plain, hc), u('é'));
    assert_eq!(Azerty.map_keycode(KeyCode::Key2, &shift, hc), u('2'));
}

#[test]
fn key_event_new_pairs_code_and_state() {
    let ev = KeyEvent::new(KeyCode::Spacebar, KeyState::SingleShot);
    assert_eq!(ev.code, KeyCode::Spacebar);
    assert_eq!(ev.state, KeyState::SingleShot);
}
