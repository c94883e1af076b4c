//! The long-lived scancode decoder, fed one byte per keyboard interrupt.
use vstd::prelude::*;
use pc_keyboard::layouts::Us104Key;
use pc_keyboard::{DecodedKey, HandleControl, KeyCode, KeyEvent, Keyboard, ScancodeSet1};

verus! {

#[verifier::external_type_specification]
#[verifier::external_body]
pub struct ExKeyEvent(KeyEvent);

#[verifier::external_type_specification]
#[verifier::external_body]
pub struct ExKeyCode(KeyCode);

#[verifier::external_type_specification]
#[verifier::external_body]
pub struct ExDecodeError(pc_keyboard::Error);

/// pc_keyboard's decoder for a US 104-key keyboard sending scan code set 1.
#[verifier::external_body]
struct Us104Set1 {
    kb: Keyboard<Us104Key, ScancodeSet1>,
}

/// The long-lived decoder. Its state (a pending prefix byte, the modifier
/// keys held) is kept by pc_keyboard; to proofs it is the bytes fed to it
/// since it was made, every resulting key event having been processed.
pub struct Decoder {
    inner: Us104Set1,
    history: Ghost<Seq<u8>>,
}

impl View for Decoder {
    type V = Seq<u8>;

    closed spec fn view(&self) -> Seq<u8> {
        self.history@
    }
}

/// A resolved key: a printable character, or the identity of a key that has
/// none.
#[derive(Debug, Clone, Copy)]
pub enum Key {
    Unicode(char),
    RawKey(KeyCode),
}

/// What pc_keyboard's `add_byte` gives for the last of `bytes`, on a decoder
/// fresh from `Keyboard::new` that was fed all of them.
pub uninterp spec fn event_after(bytes: Seq<u8>) -> Result<Option<KeyEvent>, pc_keyboard::Error>;

/// What pc_keyboard's `process_keyevent` resolves the event of the last of
/// `bytes` to, on a decoder fresh from `Keyboard::new` that was fed all of
/// them and processed every key event they produced.
pub uninterp spec fn key_after(bytes: Seq<u8>) -> Option<Key>;

/// The key a decoder resolves on the last of `bytes`: none while a sequence
/// is incomplete or when it is malformed, else what the event resolves to.
pub open spec fn resolved_key(bytes: Seq<u8>) -> Option<Key> {
    match event_after(bytes) {
        Ok(Some(_)) => key_after(bytes),
        _ => None,
    }
}

/// Relies on pc_keyboard::Keyboard::new: a decoder in its start state, with
/// control-key combinations passed through as plain letters.
#[verifier::external_body]
fn us104_set1_decoder() -> Us104Set1 {
    Us104Set1 { kb: Keyboard::new(Us104Key, ScancodeSet1, HandleControl::Ignore) }
}

/// Relies on pc_keyboard::Keyboard::add_byte: advances the decoder by one
/// byte. Its result depends only on the bytes fed so far, since the decode
/// state is changed by nothing else.
#[verifier::external_body]
fn add_byte(kb: &mut Decoder, byte: u8) -> (r: Result<Option<KeyEvent>, pc_keyboard::Error>)
    ensures
        final(kb)@ == old(kb)@.push(byte),
        r == event_after(final(kb)@),
{
    kb.inner.kb.add_byte(byte)
}

/// Relies on pc_keyboard::Keyboard::process_keyevent: applies the key event
/// of the last byte fed to the modifier state and gives the key it resolves
/// to, if any.
#[verifier::external_body]
fn process_keyevent(kb: &mut Decoder, ev: KeyEvent) -> (r: Option<Key>)
    requires
        event_after(old(kb)@) == Ok::<Option<KeyEvent>, pc_keyboard::Error>(Some(ev)),
    ensures
        final(kb)@ == old(kb)@,
        r == key_after(old(kb)@),
{
    match kb.inner.kb.process_keyevent(ev) {
        Some(DecodedKey::Unicode(c)) => Some(Key::Unicode(c)),
        Some(DecodedKey::RawKey(k)) => Some(Key::RawKey(k)),
        None => None,
    }
}

impl Decoder {
    /// A decoder in its start state: no pending prefix, no modifier held.
    pub fn new() -> (r: Decoder)
        ensures
            r@ == Seq::<u8>::empty(),
    {
        Decoder { inner: us104_set1_decoder(), history: Ghost(Seq::empty()) }
    }
}

/// Feeds one scancode byte to the decoder. An incomplete or malformed
/// sequence resolves to no key; a complete one to what its event resolves to.
pub fn decode_scancode(kb: &mut Decoder, byte: u8) -> (r: Option<Key>)
    ensures
        final(kb)@ == old(kb)@.push(byte),
        r == resolved_key(final(kb)@),
{
    match add_byte(kb, byte) {
        Ok(Some(ev)) => process_keyevent(kb, ev),
        _ => None,
    }
}

} // verus!
