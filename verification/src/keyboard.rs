//! Scancode decoding for the PS/2 keyboard handler, through the
//! pc-keyboard crate.
//!
//! The decoder is a small state machine owned by the kernel: bytes read
//! from the keyboard's data port go in, decoded keys come out. Its inner
//! state is opaque to the verifier; the handler logic around it is
//! verified for every value the decoder can hand back.

use vstd::prelude::*;

verus! {

/// The kernel's scancode decoder: holds pc_keyboard's stateful
/// `Keyboard` for the US-104 layout and scancode set 1. Its contents are
/// opaque to the verifier; pc_keyboard's `Keyboard<T, S>` itself cannot
/// be declared here because its generics carry bounds on pc_keyboard's
/// traits.
#[verifier::external_body]
pub struct KeyboardDecoder {
    inner: pc_keyboard::Keyboard<pc_keyboard::layouts::Us104Key, pc_keyboard::ScancodeSet1>,
}

/// pc_keyboard's completed key event (a key code plus up/down state),
/// carried opaquely from one decoder step to the next.
#[verifier::external_type_specification]
#[verifier::external_body]
pub struct ExKeyEvent(pc_keyboard::KeyEvent);

/// What a completed decoder step hands the handler: either a printable
/// character, or the debug name of a non-character key.
#[derive(Debug)]
pub enum DecodedInput {
    Unicode(char),
    RawKey(String),
}

/// Relies on pc_keyboard::Keyboard::new: builds the decoder for the
/// US-104 layout and scancode set 1, leaving control characters to the
/// layout (HandleControl::Ignore).
#[verifier::external_body]
pub fn new_keyboard() -> KeyboardDecoder {
    KeyboardDecoder {
        inner: pc_keyboard::Keyboard::new(
            pc_keyboard::layouts::Us104Key,
            pc_keyboard::ScancodeSet1,
            pc_keyboard::HandleControl::Ignore,
        ),
    }
}

/// Relies on pc_keyboard::Keyboard::add_byte: advances the decoder by one
/// byte of the scancode stream; a byte that completes a key event yields
/// it, and a byte the stream rejects yields nothing.
#[verifier::external_body]
pub fn keyboard_add_byte(keyboard: &mut KeyboardDecoder, scan_code: u8) -> Option<
    pc_keyboard::KeyEvent,
> {
    match keyboard.inner.add_byte(scan_code) {
        Ok(event) => event,
        Err(_) => None,
    }
}

/// Relies on pc_keyboard::Keyboard::process_keyevent: applies the
/// decoder's modifier state to a completed key event; a key press may
/// yield a decoded key, which is handed on with its unicode character or
/// the debug name of the raw key.
#[verifier::external_body]
pub fn keyboard_process_event(
    keyboard: &mut KeyboardDecoder,
    event: pc_keyboard::KeyEvent,
) -> Option<DecodedInput> {
    match keyboard.inner.process_keyevent(event) {
        Some(pc_keyboard::DecodedKey::Unicode(character)) => Some(DecodedInput::Unicode(character)),
        Some(pc_keyboard::DecodedKey::RawKey(key)) => Some(DecodedInput::RawKey(format!("{:?}", key))),
        None => None,
    }
}

} // verus!
