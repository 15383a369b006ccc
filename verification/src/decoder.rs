//! The scan-code decoder that the keyboard handler consults.
//!
//! Decoding is the work of the `pc_keyboard` crate. This module states what
//! the handler relies on in the three calls that it makes into that crate,
//! and builds the one operation that the handler needs on top of them.

use pc_keyboard::layouts::Azerty;
use pc_keyboard::{DecodedKey, HandleControl, KeyCode, KeyEvent, Keyboard, ScancodeSet1};
use vstd::prelude::*;

verus! {

/// `pc_keyboard::KeyEvent`: a key and whether it went down or up.
#[verifier::external_type_specification]
#[verifier::external_body]
pub struct ExKeyEvent(KeyEvent);

/// `pc_keyboard::KeyCode`: the identity of a key, whatever is printed on it.
#[verifier::external_type_specification]
#[verifier::external_body]
pub struct ExKeyCode(KeyCode);

/// `pc_keyboard::Error`: why a byte could not be decoded.
#[verifier::external_type_specification]
#[verifier::external_body]
pub struct ExDecodeError(pc_keyboard::Error);

/// A `pc_keyboard::Keyboard` for the French layout and scan-code set 1. The
/// parameters of that type are bound by traits of its crate, so the value
/// stays out of the verifier's sight and is reached only through the three
/// calls below.
#[verifier::external_body]
pub struct AzertyKeyboard {
    keyboard: Keyboard<Azerty, ScancodeSet1>,
}

/// A fully decoded key press.
#[derive(Debug, Clone, Copy, PartialEq, Eq)]
pub enum Keystroke {
    /// The key stands for a character.
    Unicode(char),
    /// The key stands for no character; only its identity is known.
    RawKey(KeyCode),
}

/// The first byte of every two-byte scan code.
pub const EXTENDED_PREFIX: u8 = 0xE0;

/// Whether a letter pressed with a control key held is decoded as a control
/// character. It is not: control keys go through as the keys that they are.
pub const MAP_CONTROL_LETTERS: bool = false;

/// `Keyboard::new` as a function: the decoder that has seen no byte yet, for
/// either way of treating the control keys.
pub uninterp spec fn fresh_keyboard(map_control_letters: bool) -> AzertyKeyboard;

/// The bytes of the scan code that the decoder has begun to receive and not
/// yet finished: none while it is idle, the prefix alone after the prefix.
pub uninterp spec fn partial_sequence(keyboard: AzertyKeyboard) -> Seq<u8>;

/// `Keyboard::add_byte` as a function: the decoder after the byte, and what
/// the call returns.
pub uninterp spec fn byte_step(keyboard: AzertyKeyboard, byte: u8) -> (
    AzertyKeyboard,
    Result<Option<KeyEvent>, pc_keyboard::Error>,
);

/// `Keyboard::process_keyevent` as a function: the decoder after the event,
/// and what the call returns.
pub uninterp spec fn event_step(keyboard: AzertyKeyboard, event: KeyEvent) -> (AzertyKeyboard, Option<Keystroke>);

/// The partial sequences that a decoder for scan-code set 1 can hold.
pub open spec fn valid_partial(partial: Seq<u8>) -> bool {
    partial == Seq::<u8>::empty() || partial == seq![EXTENDED_PREFIX]
}

/// Whether `byte` begins a two-byte scan code, given what is pending.
pub open spec fn opens_sequence(partial: Seq<u8>, byte: u8) -> bool {
    partial.len() == 0 && byte == EXTENDED_PREFIX
}

/// What is pending once `byte` has arrived: the prefix if it has just opened
/// a sequence, nothing in every other case.
pub open spec fn partial_after(partial: Seq<u8>, byte: u8) -> Seq<u8> {
    if opens_sequence(partial, byte) {
        seq![EXTENDED_PREFIX]
    } else {
        Seq::<u8>::empty()
    }
}

/// What feeding one byte to a decoder does: the decoder afterwards, and the
/// key press that the byte completed, if it completed one that stands for
/// something.
pub open spec fn decode(keyboard: AzertyKeyboard, byte: u8) -> (AzertyKeyboard, Option<Keystroke>) {
    let (advanced, event) = byte_step(keyboard, byte);
    match event {
        Ok(Some(event)) => event_step(advanced, event),
        _ => (advanced, None),
    }
}

/// The decoder is idle again after every byte but a prefix that found it
/// idle, so a prefix is always followed by the byte that closes its scan
/// code: no partial sequence outlives two bytes.
pub proof fn lemma_sequence_closes(partial: Seq<u8>, first: u8, second: u8)
    ensures
        valid_partial(partial_after(partial, first)),
        partial_after(partial, first).len() == 0 <==> !opens_sequence(partial, first),
        opens_sequence(partial, first) ==> partial_after(partial_after(partial, first), second).len()
            == 0,
{
}

/// `Keyboard::new` for the French layout and scan-code set 1, with the
/// treatment of the control keys that `map_control_letters` chooses. The call
/// is a function of that choice, and the new decoder is idle.
#[verifier::external_body]
fn new_keyboard(map_control_letters: bool) -> (keyboard: AzertyKeyboard)
    ensures
        keyboard == fresh_keyboard(map_control_letters),
        partial_sequence(keyboard) == Seq::<u8>::empty(),
{
    let handle_ctrl = if map_control_letters {
        HandleControl::MapLettersToUnicode
    } else {
        HandleControl::Ignore
    };
    AzertyKeyboard { keyboard: Keyboard::new(Azerty, ScancodeSet1, handle_ctrl) }
}

/// `Keyboard::add_byte`. The call is a function of the decoder and the byte.
/// In scan-code set 1 it returns `Ok(None)` for the prefix arriving at an idle
/// decoder, which is then pending, and for nothing else; every other byte
/// completes or discards a scan code and leaves the decoder idle. The call
/// panics on a decoder that holds anything but nothing or the prefix, which
/// `requires` leaves out; on the others it returns.
#[verifier::external_body]
fn add_byte(keyboard: &mut AzertyKeyboard, byte: u8) -> (event: Result<Option<KeyEvent>, pc_keyboard::Error>)
    requires
        valid_partial(partial_sequence(*old(keyboard))),
    ensures
        (*final(keyboard), event) == byte_step(*old(keyboard), byte),
        partial_sequence(*final(keyboard)) == partial_after(partial_sequence(*old(keyboard)), byte),
        event == Ok::<Option<KeyEvent>, pc_keyboard::Error>(None) <==> opens_sequence(
            partial_sequence(*old(keyboard)),
            byte,
        ),
    no_unwind
{
    keyboard.keyboard.add_byte(byte)
}

/// `Keyboard::process_keyevent`, with the `DecodedKey` that it returns
/// written as a `Keystroke`. The call is a function of the decoder and the
/// event; it may change which modifier keys the decoder takes to be held,
/// never what is pending, and it does not panic.
#[verifier::external_body]
fn process_keyevent(keyboard: &mut AzertyKeyboard, event: KeyEvent) -> (key: Option<Keystroke>)
    ensures
        (*final(keyboard), key) == event_step(*old(keyboard), event),
        partial_sequence(*final(keyboard)) == partial_sequence(*old(keyboard)),
    no_unwind
{
    match keyboard.keyboard.process_keyevent(event) {
        Some(DecodedKey::Unicode(character)) => Some(Keystroke::Unicode(character)),
        Some(DecodedKey::RawKey(code)) => Some(Keystroke::RawKey(code)),
        None => None,
    }
}

/// The keyboard decoder: it takes the bytes that the keyboard sends, one at a
/// time, and remembers between them what a key press needs more than one byte
/// to say.
pub struct Decoder {
    keyboard: AzertyKeyboard,
}

impl View for Decoder {
    type V = AzertyKeyboard;

    closed spec fn view(&self) -> AzertyKeyboard {
        self.keyboard
    }
}

impl Decoder {
    /// The decoder holds nothing, or the prefix: what scan-code set 1 allows.
    #[verifier::type_invariant]
    spec fn well_formed(self) -> bool {
        valid_partial(partial_sequence(self.keyboard))
    }

    /// The bytes of the scan code begun and not yet finished.
    pub open spec fn partial(self) -> Seq<u8> {
        partial_sequence(self@)
    }

    /// Whether no scan code is under way.
    pub open spec fn idle(self) -> bool {
        self.partial().len() == 0
    }

    /// A decoder that has seen no byte yet.
    pub fn new() -> (decoder: Decoder)
        ensures
            decoder@ == fresh_keyboard(MAP_CONTROL_LETTERS),
            decoder.idle(),
    {
        Decoder { keyboard: new_keyboard(MAP_CONTROL_LETTERS) }
    }

    /// Takes one byte from the keyboard. Returns the key press that the byte
    /// completed, if it stands for a character or a key of its own; a byte
    /// that opens a sequence, releases a key, only changes a modifier or
    /// cannot be decoded returns nothing.
    pub fn feed(&mut self, byte: u8) -> (key: Option<Keystroke>)
        ensures
            (final(self)@, key) == decode(old(self)@, byte),
            final(self).partial() == partial_after(old(self).partial(), byte),
            opens_sequence(old(self).partial(), byte) ==> key is None,
    {
        proof {
            use_type_invariant(&*self);
        }
        match add_byte(&mut self.keyboard, byte) {
            Ok(Some(event)) => process_keyevent(&mut self.keyboard, event),
            _ => None,
        }
    }
}

} // verus!
