//! The sixteen-key keypad as the machine sees it.

use vstd::prelude::*;

verus! {

/// Number of keys.
pub const KEY_COUNT: usize = 16;

/// What one poll of the input device reports: for each key, whether it is
/// held down.
#[derive(Clone, Copy, Debug)]
pub struct KeypadState {
    pub keys: [bool; 16],
}

impl KeypadState {
    /// No key held.
    pub fn released() -> (state: KeypadState)
        ensures
            state.keys@ == Seq::new(16, |k: int| false),
    {
        let state = KeypadState { keys: [false; 16] };
        state
    }
}

/// The lowest key held down in `keys`, if any is.
pub open spec fn lowest_pressed(keys: Seq<bool>) -> Option<u8> {
    if exists|k: int| 0 <= k < keys.len() && keys[k] {
        let k = choose|k: int|
            0 <= k < keys.len() && keys[k] && forall|j: int| 0 <= j < k ==> !keys[j];
        Some(k as u8)
    } else {
        None
    }
}

/// The keypad latch on the bus: the state that the last poll reported.
#[derive(Clone, Copy, Debug)]
pub struct Keypad {
    state: KeypadState,
}

impl View for Keypad {
    type V = Seq<bool>;

    closed spec fn view(&self) -> Seq<bool> {
        self.state.keys@
    }
}

impl Keypad {
    /// A keypad with no key held.
    pub fn new() -> (keypad: Keypad)
        ensures
            keypad@ == Seq::new(16, |k: int| false),
    {
        Keypad { state: KeypadState::released() }
    }

    /// A keypad always has sixteen keys.
    pub proof fn lemma_shape(&self)
        ensures
            self@.len() == 16,
    {
    }

    /// Latches what a poll reported.
    pub fn update_state(&mut self, state: KeypadState)
        ensures
            final(self)@ == state.keys@,
    {
        self.state = state;
    }

    /// The latched state.
    pub fn state(&self) -> (state: KeypadState)
        ensures
            state.keys@ == self@,
    {
        self.state
    }

    /// Whether key `key` is held. Only the low four bits of `key` count.
    pub fn is_pressed(&self, key: u8) -> (pressed: bool)
        ensures
            self@.len() == 16,
            pressed == self@[(key % 16) as int],
    {
        let k: usize = (key % 16) as usize;
        self.state.keys[k]
    }

    /// The lowest key held, if any is.
    pub fn first_pressed(&self) -> (key: Option<u8>)
        ensures
            key == lowest_pressed(self@),
    {
        let mut k: u8 = 0;
        while k < 16
            invariant
                k <= 16,
                self@.len() == 16,
                forall|j: int| 0 <= j < k ==> !self@[j],
            decreases 16 - k,
        {
            if self.state.keys[k as usize] {
                return Some(k);
            }
            k = k + 1;
        }
        None
    }
}

} // verus!
