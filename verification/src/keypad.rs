//! The sixteen-key input device.

use vstd::prelude::*;

use crate::data::Nibble;

verus! {

/// Number of keys of the keypad.
pub const KEY_COUNT: usize = 16;

/// [Keypad] holds, for each of the sixteen keys `0x0` to `0xF`, whether it
/// is held down.
pub struct Keypad {
    keys: [bool; 16],
}

impl View for Keypad {
    type V = Seq<bool>;

    /// For each key, in order, whether it is held down.
    closed spec fn view(&self) -> Seq<bool> {
        self.keys@
    }
}

/// A keypad has one entry for each of its sixteen keys.
pub broadcast proof fn lemma_keypad_len(keypad: Keypad)
    ensures
        #[trigger] keypad@.len() == 16,
{
}

/// Whether the key with value `key` is held down on a keypad with the
/// given key states. There is no key above `0xF`.
pub open spec fn key_down(keys: Seq<bool>, key: u8) -> bool {
    key < 16 && keys[key as int]
}

impl Keypad {
    /// Constructs a keypad on which no key is held down.
    pub fn new() -> (keypad: Self)
        ensures
            keypad@ == Seq::new(16, |k: int| false),
    {
        let keypad = Keypad { keys: [false; 16] };
        assert(keypad@ =~= Seq::new(16, |k: int| false));
        keypad
    }

    /// Records that a key went down or came up.
    pub fn set_key(&mut self, key: Nibble, pressed: bool)
        ensures
            final(self)@ == old(self)@.update(key@ as int, pressed),
    {
        self.keys[key.as_usize()] = pressed;
    }

    /// Whether the key with value `key` is held down.
    pub fn is_pressed(&self, key: u8) -> (pressed: bool)
        ensures
            pressed == key_down(self@, key),
    {
        (key as usize) < KEY_COUNT && self.keys[key as usize]
    }
}

} // verus!
