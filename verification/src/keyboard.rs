//! Input latch of the machine: at most one "currently pressed" key code at
//! any sampled instant, overwritten on each sampling tick.

use vstd::prelude::*;

verus! {

/// Input latch: holds the key most recently sampled from the host, or none.
pub struct Keyboard {
    pressed_key: Option<u8>,
}

impl View for Keyboard {
    type V = Option<u8>;

    closed spec fn view(&self) -> Option<u8> {
        self.pressed_key
    }
}

impl Keyboard {
    /// Creates a new `Keyboard` with no key latched.
    pub fn new() -> (r: Keyboard)
        ensures
            r@ is None,
    {
        Keyboard { pressed_key: None }
    }

    /// Overwrites the latched key; called on each input-sampling tick.
    pub fn set_pressed_key(&mut self, key: Option<u8>)
        ensures
            final(self)@ == key,
    {
        self.pressed_key = key;
    }

    /// Reads the latched key, if any.
    pub fn get_pressed_key(&self) -> (r: Option<u8>)
        ensures
            r == self@,
    {
        self.pressed_key
    }

    /// Whether `key_code` is exactly the key currently latched.
    pub fn is_key_pressed(&self, key_code: u8) -> (r: bool)
        ensures
            r == (self@ == Some(key_code)),
    {
        if let Some(key) = self.pressed_key {
            key == key_code
        } else {
            false
        }
    }
}

} // verus!
