//! The memory bus: the address space, the frame buffer and the keypad latch.

use vstd::prelude::*;
use crate::display::{blank, collides, draw_spec, Display};
use crate::keypad::{Keypad, KeypadState};
use crate::mem_map::{overlay, window, MEMORY_SIZE};

verus! {

/// What the bus holds, as mathematics.
pub struct BusState {
    /// The address space, `MEMORY_SIZE` bytes.
    pub memory: Seq<u8>,
    /// The frame, row by row.
    pub display: Seq<bool>,
    /// For each key, whether it was held at the last poll.
    pub keys: Seq<bool>,
}

/// The bus between the CPU, the memory, the frame buffer and the keypad.
pub struct Interconnect {
    memory: [u8; 4096],
    display: Display,
    keypad: Keypad,
}

impl View for Interconnect {
    type V = BusState;

    closed spec fn view(&self) -> BusState {
        BusState { memory: self.memory@, display: self.display@, keys: self.keypad@ }
    }
}

impl Interconnect {
    /// A bus with zeroed memory around the given devices.
    pub fn new(display: Display, keypad: Keypad) -> (bus: Interconnect)
        ensures
            bus@.memory == Seq::new(MEMORY_SIZE as nat, |a: int| 0u8),
            bus@.display == display@,
            bus@.keys == keypad@,
    {
        let bus = Interconnect { memory: [0u8; 4096], display, keypad };
        bus
    }

    /// The sizes of what the bus holds never change.
    pub proof fn lemma_shape(&self)
        ensures
            self@.memory.len() == MEMORY_SIZE,
            self@.display.len() == 2048,
            self@.keys.len() == 16,
    {
        self.display.lemma_shape();
        self.keypad.lemma_shape();
    }

    /// Copies `bytes` into memory from address `base` on.
    pub fn write_memory(&mut self, base: u16, bytes: &Vec<u8>)
        requires
            base + bytes.len() <= MEMORY_SIZE,
        ensures
            final(self)@.memory == overlay(old(self)@.memory, base as int, bytes@),
            final(self)@.display == old(self)@.display,
            final(self)@.keys == old(self)@.keys,
    {
        let start: usize = base as usize;
        let mut k: usize = 0;
        while k < bytes.len()
            invariant
                k <= bytes.len(),
                start == base,
                start + bytes.len() <= MEMORY_SIZE,
                self.display == old(self).display,
                self.keypad == old(self).keypad,
                self.memory@.len() == 4096,
                forall|a: int|
                    0 <= a < 4096 ==> self.memory@[a] == if start <= a < start + k {
                        bytes@[a - start]
                    } else {
                        old(self).memory@[a]
                    },
            decreases bytes.len() - k,
        {
            self.memory[start + k] = bytes[k];
            k = k + 1;
        }
    }

    /// Whether `len` bytes from address `base` on lie inside memory.
    pub fn in_range(base: u16, len: usize) -> (inside: bool)
        ensures
            inside == (base + len <= MEMORY_SIZE),
    {
        len <= MEMORY_SIZE && base as usize <= MEMORY_SIZE - len
    }

    /// The byte at `address`.
    pub fn read_byte(&self, address: u16) -> (byte: u8)
        requires
            address < MEMORY_SIZE,
        ensures
            byte == self@.memory[address as int],
    {
        self.memory[address as usize]
    }

    /// Stores `byte` at `address`.
    pub fn write_byte(&mut self, address: u16, byte: u8)
        requires
            address < MEMORY_SIZE,
        ensures
            final(self)@.memory == old(self)@.memory.update(address as int, byte),
            final(self)@.display == old(self)@.display,
            final(self)@.keys == old(self)@.keys,
    {
        self.memory[address as usize] = byte;
    }

    /// The `len` bytes from address `base` on.
    pub fn read_memory(&self, base: u16, len: u16) -> (bytes: Vec<u8>)
        requires
            base + len <= MEMORY_SIZE,
        ensures
            bytes@ == window(self@.memory, base as int, len as int),
    {
        let mut bytes: Vec<u8> = Vec::new();
        let mut k: u16 = 0;
        while k < len
            invariant
                k <= len,
                base + len <= MEMORY_SIZE,
                self.memory@.len() == 4096,
                bytes@ == self.memory@.subrange(base as int, base + k),
            decreases len - k,
        {
            bytes.push(self.read_byte(base + k));
            k = k + 1;
        }
        bytes
    }

    /// Latches what a keypad poll reported.
    pub fn update_keypad(&mut self, state: KeypadState)
        ensures
            final(self)@.keys == state.keys@,
            final(self)@.memory == old(self)@.memory,
            final(self)@.display == old(self)@.display,
    {
        self.keypad.update_state(state);
    }

    /// The keypad latch.
    pub fn keypad(&self) -> (keypad: &Keypad)
        ensures
            keypad@ == self@.keys,
    {
        &self.keypad
    }

    /// The frame buffer.
    pub fn display(&self) -> (display: &Display)
        ensures
            display@ == self@.display,
    {
        &self.display
    }

    /// Blanks the frame.
    pub fn clear_display(&mut self)
        ensures
            final(self)@.display == blank(),
            final(self)@.memory == old(self)@.memory,
            final(self)@.keys == old(self)@.keys,
    {
        self.display.clear();
    }

    /// The `len` bytes from address `base` on; addresses wrap at the end of
    /// memory.
    pub fn read_wrapped(&self, base: u16, len: u8) -> (bytes: Vec<u8>)
        ensures
            bytes@ == wrapped_window(self@.memory, base, len as int),
    {
        let mut bytes: Vec<u8> = Vec::new();
        let mut k: u8 = 0;
        while k < len
            invariant
                k <= len,
                self.memory@.len() == 4096,
                bytes@.len() == k,
                forall|j: int| 0 <= j < k ==> bytes@[j] == self.memory@[(base + j) % 4096],
            decreases len - k,
        {
            let address: u16 = ((base as u32 + k as u32) % 4096) as u16;
            bytes.push(self.read_byte(address));
            k = k + 1;
        }
        bytes
    }

    /// Stores `bytes` from address `base` on; addresses wrap at the end of
    /// memory.
    pub fn write_wrapped(&mut self, base: u16, bytes: &Vec<u8>)
        requires
            bytes.len() <= MEMORY_SIZE,
        ensures
            final(self)@.memory == overlay_wrapped(old(self)@.memory, base, bytes@),
            final(self)@.display == old(self)@.display,
            final(self)@.keys == old(self)@.keys,
    {
        let mut k: usize = 0;
        while k < bytes.len()
            invariant
                k <= bytes.len(),
                bytes.len() <= MEMORY_SIZE,
                self.display == old(self).display,
                self.keypad == old(self).keypad,
                self.memory@.len() == 4096,
                self.memory@ == overlay_wrapped(old(self).memory@, base, bytes@.take(k as int)),
            decreases bytes.len() - k,
        {
            let address: usize = (base as usize + k) % 4096;
            self.memory[address] = bytes[k];
            k = k + 1;
        }
    }

    /// Draws the `rows` bytes from address `base` on as a sprite at
    /// `(x, y)`; addresses wrap at the end of memory. Says whether a lit
    /// pixel was turned off.
    pub fn draw_sprite(&mut self, x: u8, y: u8, base: u16, rows: u8) -> (collision: bool)
        ensures
            final(self)@.display == draw_spec(
                old(self)@.display,
                x,
                y,
                wrapped_window(old(self)@.memory, base, rows as int),
            ),
            collision == collides(
                old(self)@.display,
                x,
                y,
                wrapped_window(old(self)@.memory, base, rows as int),
            ),
            final(self)@.memory == old(self)@.memory,
            final(self)@.keys == old(self)@.keys,
    {
        let sprite = self.read_wrapped(base, rows);
        self.display.draw(x, y, &sprite)
    }
}

/// The `len` bytes of `memory` from address `base` on, wrapping at the end
/// of memory.
pub open spec fn wrapped_window(memory: Seq<u8>, base: u16, len: int) -> Seq<u8> {
    Seq::new(len as nat, |j: int| memory[(base + j) % 4096])
}

/// `memory` with `bytes` laid over it from address `base` on, wrapping at
/// the end of memory.
pub open spec fn overlay_wrapped(memory: Seq<u8>, base: u16, bytes: Seq<u8>) -> Seq<u8> {
    Seq::new(
        memory.len(),
        |a: int|
            if (a - base) % 4096 < bytes.len() {
                bytes[(a - base) % 4096]
            } else {
                memory[a]
            },
    )
}

} // verus!
