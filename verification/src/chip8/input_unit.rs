//! The sixteen-key keypad.

use vstd::prelude::*;

verus! {

/// Number of keys; they are numbered `0x0` to `0xF`.
pub const KEY_COUNT: usize = 16;

/// The keypad with no key held down.
pub open spec fn idle_keypad() -> Seq<bool> {
    Seq::new(16, |k: int| false)
}

/// Whether `key` is held down on `keypad`. A number that names no key is
/// never held down.
pub open spec fn key_down(keypad: Seq<bool>, key: int) -> bool {
    0 <= key < 16 && keypad[key]
}

pub struct InputUnit {
    pub keypad: [bool; 16],
}

impl View for InputUnit {
    type V = Seq<bool>;

    open spec fn view(&self) -> Seq<bool> {
        self.keypad@
    }
}

impl InputUnit {
    /// A keypad with no key held down.
    pub fn new() -> (res: InputUnit)
        ensures
            res@ == idle_keypad(),
    {
        InputUnit { keypad: [false; 16] }
    }

    /// Records that `key` went down or up.
    pub fn set_key(&mut self, key: u8, pressed: bool)
        requires
            key < 16,
        ensures
            final(self)@ == old(self)@.update(key as int, pressed),
    {
        self.keypad[key as usize] = pressed;
    }

    /// Whether `key` is held down.
    pub fn is_pressed(&self, key: u8) -> (res: bool)
        ensures
            res == key_down(self@, key as int),
    {
        (key as usize) < KEY_COUNT && self.keypad[key as usize]
    }
}

} // verus!
