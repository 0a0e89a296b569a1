//! A CHIP-8 virtual machine with a remote-debugging control layer.
//!
//! The machine is headless: the frame buffer and the keypad latch are plain
//! data on the memory bus, and every step of the run loop is a function from
//! the machine and an input to the next machine and what to do about it. A
//! host program owns the window, the input device and the debugger socket:
//! it hands in the command that was waiting and what a poll of the keypad
//! reported, and carries out what comes back.
//!
//! - `mem_map`, `interconnect`, `display`, `keypad`: the address space and
//!   the devices on the bus.
//! - `instruction`, `cpu`: the instruction set and what one cycle does.
//! - `chip8`: the bare machine and its run loop.
//! - `remote_dbg`, `chip8vm`: the debugger's commands and snapshots, and the
//!   machine under a lifecycle state that they drive.
//! - `laws`: what holds of the debuggable machine whatever it is given.

pub mod mem_map;
pub mod display;
pub mod keypad;
pub mod interconnect;
pub mod instruction;
pub mod cpu;
pub mod chip8;
pub mod remote_dbg;
pub mod chip8vm;
pub mod laws;
