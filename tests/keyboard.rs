use pc_keyboard::KeyCode;
use rust_os::keyboard::{decode_scancode, Decoder, Key};

#[test]
fn two_byte_scancode_yields_one_key_event() {
    let mut kb = Decoder::new();
    let mut resolved = Vec::new();
    for byte in [0xE0u8, 0x48] {
        if let Some(k) = decode_scancode(&mut kb, byte) {
            resolved.push(k);
        }
    }
    assert_eq!(resolved.len(), 1);
    assert!(matches!(resolved[0], Key::RawKey(KeyCode::ArrowUp)));
}

#[test]
fn prefix_byte_alone_is_incomplete() {
    let mut kb = Decoder::new();
    assert!(decode_scancode(&mut kb, 0xE0).is_none());
}

#[test]
fn letter_press_and_release() {
    let mut kb = Decoder::new();
    assert!(matches!(decode_scancode(&mut kb, 0x1E), Some(Key::Unicode('a'))));
    assert!(decode_scancode(&mut kb, 0x9E).is_none());
}

#[test]
fn decoder_keeps_shift_state_across_bytes() {
    let mut kb = Decoder::new();
    assert!(decode_scancode(&mut kb, 0x2A).is_none());
    assert!(matches!(decode_scancode(&mut kb, 0x1E), Some(Key::Unicode('A'))));
}

#[test]
fn malformed_sequence_is_swallowed_and_decoding_goes_on() {
    let mut kb = Decoder::new();
    assert!(decode_scancode(&mut kb, 0xE0).is_none());
    assert!(decode_scancode(&mut kb, 0x1E).is_none());
    assert!(matches!(decode_scancode(&mut kb, 0x1E), Some(Key::Unicode('a'))));
}
