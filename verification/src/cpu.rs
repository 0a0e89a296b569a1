//! The processor: its registers, and what one instruction does to them and
//! to the bus.

use vstd::prelude::*;
use crate::display::{blank, collides, draw_spec};
use crate::instruction::{decode, decode_spec, Instruction};
use crate::interconnect::{overlay_wrapped, wrapped_window, BusState, Interconnect};
use crate::keypad::lowest_pressed;
use crate::mem_map::{FONTS_LOCATION, GLYPH_SIZE, INSTRUCTION_WIDTH, ROM_LOCATION};

verus! {

/// What the processor holds, as mathematics.
pub struct CpuState {
    /// The general registers `V0` to `VF`.
    pub v: Seq<u8>,
    /// The index register `I`.
    pub i: u16,
    /// The program counter.
    pub pc: u16,
    /// The stack pointer: the slot that the next call fills.
    pub sp: u8,
    /// The sixteen return addresses.
    pub stack: Seq<u16>,
    /// The delay timer register.
    pub delay_timer: u8,
    /// The sound timer register.
    pub sound_timer: u8,
}

/// The processor as it is after power-on: everything zero, the program
/// counter at the program base.
pub open spec fn fresh_cpu() -> CpuState {
    CpuState {
        v: Seq::new(16, |k: int| 0u8),
        i: 0,
        pc: ROM_LOCATION,
        sp: 0,
        stack: Seq::new(16, |k: int| 0u16),
        delay_timer: 0,
        sound_timer: 0,
    }
}

/// Register `x`; only the low four bits of `x` count.
pub open spec fn reg(cpu: CpuState, x: u8) -> u8 {
    cpu.v[(x % 16) as int]
}

/// `cpu` with register `x` set to `value`.
pub open spec fn with_reg(cpu: CpuState, x: u8, value: u8) -> CpuState {
    CpuState { v: cpu.v.update((x % 16) as int, value), ..cpu }
}

/// `cpu` with the flag register `VF` set to one or zero.
pub open spec fn with_flag(cpu: CpuState, flag: bool) -> CpuState {
    with_reg(cpu, 15, if flag { 1u8 } else { 0u8 })
}

/// `cpu` with the index register set to `i`.
pub open spec fn with_index(cpu: CpuState, i: u16) -> CpuState {
    CpuState { i, ..cpu }
}

/// `cpu` with the program counter set to `pc`.
pub open spec fn with_pc(cpu: CpuState, pc: u16) -> CpuState {
    CpuState { pc, ..cpu }
}

/// `cpu` with the program counter on the next instruction, or on the one
/// after it if `skip`. The counter wraps at the end of memory.
pub open spec fn skipped(cpu: CpuState, skip: bool) -> CpuState {
    with_pc(
        cpu,
        if skip {
            ((cpu.pc + 2 * INSTRUCTION_WIDTH) % 4096) as u16
        } else {
            ((cpu.pc + INSTRUCTION_WIDTH) % 4096) as u16
        },
    )
}

/// `cpu` with the program counter on the next instruction.
pub open spec fn advanced(cpu: CpuState) -> CpuState {
    skipped(cpu, false)
}

/// `cpu` after a call to `target`: the address of the next instruction is
/// pushed. The stack is a ring of sixteen slots.
pub open spec fn called(cpu: CpuState, target: u16) -> CpuState {
    CpuState {
        stack: cpu.stack.update((cpu.sp % 16) as int, advanced(cpu).pc),
        sp: ((cpu.sp % 16 + 1) % 16) as u8,
        pc: target,
        ..cpu
    }
}

/// `cpu` after a return: the last pushed address is popped into the
/// program counter.
pub open spec fn returned(cpu: CpuState) -> CpuState {
    CpuState {
        sp: ((cpu.sp % 16 + 15) % 16) as u8,
        pc: cpu.stack[(cpu.sp % 16 + 15) % 16],
        ..cpu
    }
}

/// `cpu` with the first `count` registers loaded from `memory` at the
/// index register on.
pub open spec fn restored(cpu: CpuState, memory: Seq<u8>, count: int) -> CpuState {
    CpuState {
        v: Seq::new(16, |k: int| if k < count { memory[(cpu.i + k) % 4096] } else { cpu.v[k] }),
        ..cpu
    }
}

/// The three decimal digits of `value`, hundreds first.
pub open spec fn decimal_digits(value: u8) -> Seq<u8> {
    seq![(value / 100) as u8, ((value / 10) % 10) as u8, (value % 10) as u8]
}

/// The instruction word at the program counter, high byte first.
pub open spec fn fetch_spec(cpu: CpuState, bus: BusState) -> u16 {
    (bus.memory[(cpu.pc % 4096) as int] * 256 + bus.memory[(cpu.pc + 1) % 4096]) as u16
}

/// The processor after it executed `instruction`, where `random` is the
/// byte that a `Random` instruction draws.
pub open spec fn cpu_after(
    cpu: CpuState,
    bus: BusState,
    instruction: Instruction,
    random: u8,
) -> CpuState {
    match instruction {
        Instruction::Sys(_) => advanced(cpu),
        Instruction::ClearScreen => advanced(cpu),
        Instruction::Return => returned(cpu),
        Instruction::Jump(target) => with_pc(cpu, target),
        Instruction::Call(target) => called(cpu, target),
        Instruction::SkipIfEqual(x, byte) => skipped(cpu, reg(cpu, x) == byte),
        Instruction::SkipIfNotEqual(x, byte) => skipped(cpu, reg(cpu, x) != byte),
        Instruction::SkipIfSame(x, y) => skipped(cpu, reg(cpu, x) == reg(cpu, y)),
        Instruction::Load(x, byte) => advanced(with_reg(cpu, x, byte)),
        Instruction::Add(x, byte) => advanced(
            with_reg(cpu, x, ((reg(cpu, x) + byte) % 256) as u8),
        ),
        Instruction::Move(x, y) => advanced(with_reg(cpu, x, reg(cpu, y))),
        Instruction::Or(x, y) => advanced(with_reg(cpu, x, reg(cpu, x) | reg(cpu, y))),
        Instruction::And(x, y) => advanced(with_reg(cpu, x, reg(cpu, x) & reg(cpu, y))),
        Instruction::Xor(x, y) => advanced(with_reg(cpu, x, reg(cpu, x) ^ reg(cpu, y))),
        Instruction::AddRegister(x, y) => advanced(
            with_flag(
                with_reg(cpu, x, ((reg(cpu, x) + reg(cpu, y)) % 256) as u8),
                reg(cpu, x) + reg(cpu, y) > 255,
            ),
        ),
        Instruction::Subtract(x, y) => advanced(
            with_flag(
                with_reg(cpu, x, ((reg(cpu, x) - reg(cpu, y)) % 256) as u8),
                reg(cpu, x) >= reg(cpu, y),
            ),
        ),
        Instruction::ShiftRight(x, _) => advanced(
            with_flag(with_reg(cpu, x, (reg(cpu, x) / 2) as u8), reg(cpu, x) % 2 == 1),
        ),
        Instruction::SubtractFrom(x, y) => advanced(
            with_flag(
                with_reg(cpu, x, ((reg(cpu, y) - reg(cpu, x)) % 256) as u8),
                reg(cpu, y) >= reg(cpu, x),
            ),
        ),
        Instruction::ShiftLeft(x, _) => advanced(
            with_flag(with_reg(cpu, x, ((reg(cpu, x) * 2) % 256) as u8), reg(cpu, x) >= 128),
        ),
        Instruction::SkipIfDifferent(x, y) => skipped(cpu, reg(cpu, x) != reg(cpu, y)),
        Instruction::LoadIndex(address) => advanced(with_index(cpu, address)),
        Instruction::JumpOffset(address) => with_pc(
            cpu,
            ((address + reg(cpu, 0)) % 4096) as u16,
        ),
        Instruction::Random(x, mask) => advanced(with_reg(cpu, x, random & mask)),
        Instruction::Draw(x, y, rows) => advanced(
            with_flag(
                cpu,
                collides(
                    bus.display,
                    reg(cpu, x),
                    reg(cpu, y),
                    wrapped_window(bus.memory, cpu.i, rows as int),
                ),
            ),
        ),
        Instruction::SkipIfPressed(x) => skipped(cpu, bus.keys[(reg(cpu, x) % 16) as int]),
        Instruction::SkipIfReleased(x) => skipped(cpu, !bus.keys[(reg(cpu, x) % 16) as int]),
        Instruction::ReadDelay(x) => advanced(with_reg(cpu, x, cpu.delay_timer)),
        Instruction::WaitKey(x) => match lowest_pressed(bus.keys) {
            Some(key) => advanced(with_reg(cpu, x, key)),
            None => cpu,
        },
        Instruction::SetDelay(x) => advanced(CpuState { delay_timer: reg(cpu, x), ..cpu }),
        Instruction::SetSound(x) => advanced(CpuState { sound_timer: reg(cpu, x), ..cpu }),
        Instruction::AddIndex(x) => advanced(
            with_index(cpu, ((cpu.i + reg(cpu, x)) % 0x10000) as u16),
        ),
        Instruction::Glyph(x) => advanced(
            with_index(cpu, (FONTS_LOCATION + (reg(cpu, x) % 16) * GLYPH_SIZE) as u16),
        ),
        Instruction::Decimal(_) => advanced(cpu),
        Instruction::Store(_) => advanced(cpu),
        Instruction::Restore(x) => advanced(restored(cpu, bus.memory, x % 16 + 1)),
        Instruction::Unknown(_) => advanced(cpu),
    }
}

/// The bus after the processor executed `instruction`.
pub open spec fn bus_after(cpu: CpuState, bus: BusState, instruction: Instruction) -> BusState {
    match instruction {
        Instruction::ClearScreen => BusState { display: blank(), ..bus },
        Instruction::Draw(x, y, rows) => BusState {
            display: draw_spec(
                bus.display,
                reg(cpu, x),
                reg(cpu, y),
                wrapped_window(bus.memory, cpu.i, rows as int),
            ),
            ..bus
        },
        Instruction::Decimal(x) => BusState {
            memory: overlay_wrapped(bus.memory, cpu.i, decimal_digits(reg(cpu, x))),
            ..bus
        },
        Instruction::Store(x) => BusState {
            memory: overlay_wrapped(bus.memory, cpu.i, cpu.v.take(x % 16 + 1)),
            ..bus
        },
        _ => bus,
    }
}

/// The processor after one cycle: the instruction at the program counter
/// is fetched, decoded and executed.
#[verifier::opaque]
pub open spec fn cycle_cpu(cpu: CpuState, bus: BusState, random: u8) -> CpuState {
    cpu_after(cpu, bus, decode_spec(fetch_spec(cpu, bus)), random)
}

/// The bus after one cycle.
#[verifier::opaque]
pub open spec fn cycle_bus(cpu: CpuState, bus: BusState) -> BusState {
    bus_after(cpu, bus, decode_spec(fetch_spec(cpu, bus)))
}

/// Whether one cycle can lead from `(cpu, bus)` to `(next_cpu, next_bus)`:
/// it does for some byte that the random source may have given.
pub open spec fn is_cycle(
    cpu: CpuState,
    bus: BusState,
    next_cpu: CpuState,
    next_bus: BusState,
) -> bool {
    exists|random: u8|
        next_cpu == #[trigger] cycle_cpu(cpu, bus, random) && next_bus == cycle_bus(cpu, bus)
}

/// A copy of the processor's registers at one moment.
#[derive(Clone, Copy, Debug)]
pub struct CpuSnapshot {
    /// The general registers `V0` to `VF`.
    pub v: [u8; 16],
    /// The index register `I`.
    pub i: u16,
    /// The program counter.
    pub pc: u16,
    /// The stack pointer.
    pub sp: u8,
    /// The sixteen return addresses.
    pub stack: [u16; 16],
    /// The delay timer register.
    pub delay_timer: u8,
    /// The sound timer register.
    pub sound_timer: u8,
}

impl View for CpuSnapshot {
    type V = CpuState;

    open spec fn view(&self) -> CpuState {
        CpuState {
            v: self.v@,
            i: self.i,
            pc: self.pc,
            sp: self.sp,
            stack: self.stack@,
            delay_timer: self.delay_timer,
            sound_timer: self.sound_timer,
        }
    }
}

/// The processor.
pub struct Cpu {
    v: [u8; 16],
    i: u16,
    pc: u16,
    sp: u8,
    stack: [u16; 16],
    delay_timer: u8,
    sound_timer: u8,
}

impl View for Cpu {
    type V = CpuState;

    closed spec fn view(&self) -> CpuState {
        CpuState {
            v: self.v@,
            i: self.i,
            pc: self.pc,
            sp: self.sp,
            stack: self.stack@,
            delay_timer: self.delay_timer,
            sound_timer: self.sound_timer,
        }
    }
}

/// A byte from `rand::random`, which draws it from the thread's generator.
/// Nothing is claimed of its value: two calls may differ. The generator
/// seeds itself from the operating system at its first use in a thread and
/// panics if that fails.
#[verifier::external_body]
fn random_byte() -> (byte: u8) {
    rand::random::<u8>()
}

impl Cpu {
    /// A processor as it is after power-on.
    pub fn new() -> (cpu: Cpu)
        ensures
            cpu@ == fresh_cpu(),
    {
        let cpu = Cpu {
            v: [0u8; 16],
            i: 0,
            pc: ROM_LOCATION,
            sp: 0,
            stack: [0u16; 16],
            delay_timer: 0,
            sound_timer: 0,
        };
        assert(cpu.v@ =~= fresh_cpu().v);
        assert(cpu.stack@ =~= fresh_cpu().stack);
        cpu
    }

    /// The register file always has sixteen registers and the stack
    /// sixteen slots.
    pub proof fn lemma_shape(&self)
        ensures
            self@.v.len() == 16,
            self@.stack.len() == 16,
    {
    }

    /// A copy of the registers as they are now.
    pub fn snapshot(&self) -> (snapshot: CpuSnapshot)
        ensures
            snapshot@ == self@,
    {
        CpuSnapshot {
            v: self.v,
            i: self.i,
            pc: self.pc,
            sp: self.sp,
            stack: self.stack,
            delay_timer: self.delay_timer,
            sound_timer: self.sound_timer,
        }
    }

    /// Register `x`.
    fn reg(&self, x: u8) -> (value: u8)
        ensures
            value == reg(self@, x),
    {
        self.v[(x % 16) as usize]
    }

    /// Sets register `x`.
    fn set_reg(&mut self, x: u8, value: u8)
        ensures
            final(self)@ == with_reg(old(self)@, x, value),
    {
        self.v[(x % 16) as usize] = value;
    }

    /// Sets the flag register to one or zero.
    fn set_flag(&mut self, flag: bool)
        ensures
            final(self)@ == with_flag(old(self)@, flag),
    {
        self.set_reg(15, if flag { 1 } else { 0 });
    }

    /// Moves the program counter to the next instruction, or past it if
    /// `skip`.
    fn skip_if(&mut self, skip: bool)
        ensures
            final(self)@ == skipped(old(self)@, skip),
    {
        let width: u32 = if skip { 2 * INSTRUCTION_WIDTH as u32 } else { INSTRUCTION_WIDTH as u32 };
        self.pc = ((self.pc as u32 + width) % 4096) as u16;
    }

    /// Moves the program counter to the next instruction.
    fn advance(&mut self)
        ensures
            final(self)@ == advanced(old(self)@),
    {
        self.skip_if(false);
    }

    /// Pushes the address of the next instruction and jumps to `target`.
    fn call(&mut self, target: u16)
        ensures
            final(self)@ == called(old(self)@, target),
    {
        let slot: u8 = self.sp % 16;
        self.stack[slot as usize] = ((self.pc as u32 + INSTRUCTION_WIDTH as u32) % 4096) as u16;
        self.sp = (slot + 1) % 16;
        self.pc = target;
    }

    /// Pops the last pushed address into the program counter.
    fn ret(&mut self)
        ensures
            final(self)@ == returned(old(self)@),
    {
        let slot: u8 = (self.sp % 16 + 15) % 16;
        self.sp = slot;
        self.pc = self.stack[slot as usize];
    }

    /// Loads the first `count` registers from memory at the index register
    /// on.
    fn restore(&mut self, bus: &Interconnect, count: u8)
        requires
            count <= 16,
        ensures
            final(self)@ == restored(old(self)@, bus@.memory, count as int),
    {
        let bytes = bus.read_wrapped(self.i, count);
        let mut k: usize = 0;
        while k < count as usize
            invariant
                k <= count <= 16,
                bytes@ == wrapped_window(bus@.memory, old(self).i, count as int),
                self.i == old(self).i,
                self.pc == old(self).pc,
                self.sp == old(self).sp,
                self.stack == old(self).stack,
                self.delay_timer == old(self).delay_timer,
                self.sound_timer == old(self).sound_timer,
                self.v@ == restored(old(self)@, bus@.memory, k as int).v,
            decreases count - k,
        {
            self.v[k] = bytes[k];
            k = k + 1;
            assert(self.v@ =~= restored(old(self)@, bus@.memory, k as int).v);
        }
    }

    /// The instruction word at the program counter.
    pub fn fetch(&self, bus: &Interconnect) -> (opcode: u16)
        ensures
            opcode == fetch_spec(self@, bus@),
    {
        let high = bus.read_byte(self.pc % 4096);
        let low = bus.read_byte(((self.pc as u32 + 1) % 4096) as u16);
        high as u16 * 256 + low as u16
    }

    /// Executes `instruction`, with `random` as the byte that a `Random`
    /// instruction draws.
    pub fn execute(&mut self, bus: &mut Interconnect, instruction: Instruction, random: u8)
        ensures
            final(self)@ == cpu_after(old(self)@, old(bus)@, instruction, random),
            final(bus)@ == bus_after(old(self)@, old(bus)@, instruction),
    {
        proof {
            bus.lemma_shape();
        }
        match instruction {
            Instruction::Sys(_) => {
                self.advance();
            },
            Instruction::ClearScreen => {
                bus.clear_display();
                self.advance();
            },
            Instruction::Return => {
                self.ret();
            },
            Instruction::Jump(target) => {
                self.pc = target;
            },
            Instruction::Call(target) => {
                self.call(target);
            },
            Instruction::SkipIfEqual(x, byte) => {
                let skip = self.reg(x) == byte;
                self.skip_if(skip);
            },
            Instruction::SkipIfNotEqual(x, byte) => {
                let skip = self.reg(x) != byte;
                self.skip_if(skip);
            },
            Instruction::SkipIfSame(x, y) => {
                let skip = self.reg(x) == self.reg(y);
                self.skip_if(skip);
            },
            Instruction::Load(x, byte) => {
                self.set_reg(x, byte);
                self.advance();
            },
            Instruction::Add(x, byte) => {
                let sum: u16 = self.reg(x) as u16 + byte as u16;
                self.set_reg(x, (sum % 256) as u8);
                self.advance();
            },
            Instruction::Move(x, y) => {
                let value = self.reg(y);
                self.set_reg(x, value);
                self.advance();
            },
            Instruction::Or(x, y) => {
                let value = self.reg(x) | self.reg(y);
                self.set_reg(x, value);
                self.advance();
            },
            Instruction::And(x, y) => {
                let value = self.reg(x) & self.reg(y);
                self.set_reg(x, value);
                self.advance();
            },
            Instruction::Xor(x, y) => {
                let value = self.reg(x) ^ self.reg(y);
                self.set_reg(x, value);
                self.advance();
            },
            Instruction::AddRegister(x, y) => {
                let sum: u16 = self.reg(x) as u16 + self.reg(y) as u16;
                self.set_reg(x, (sum % 256) as u8);
                self.set_flag(sum > 255);
                self.advance();
            },
            Instruction::Subtract(x, y) => {
                let a = self.reg(x);
                let b = self.reg(y);
                self.set_reg(x, ((256 + a as u16 - b as u16) % 256) as u8);
                self.set_flag(a >= b);
                self.advance();
            },
            Instruction::ShiftRight(x, _) => {
                let a = self.reg(x);
                self.set_reg(x, a / 2);
                self.set_flag(a % 2 == 1);
                self.advance();
            },
            Instruction::SubtractFrom(x, y) => {
                let a = self.reg(x);
                let b = self.reg(y);
                self.set_reg(x, ((256 + b as u16 - a as u16) % 256) as u8);
                self.set_flag(b >= a);
                self.advance();
            },
            Instruction::ShiftLeft(x, _) => {
                let a = self.reg(x);
                self.set_reg(x, ((a as u16 * 2) % 256) as u8);
                self.set_flag(a >= 128);
                self.advance();
            },
            Instruction::SkipIfDifferent(x, y) => {
                let skip = self.reg(x) != self.reg(y);
                self.skip_if(skip);
            },
            Instruction::LoadIndex(address) => {
                self.i = address;
                self.advance();
            },
            Instruction::JumpOffset(address) => {
                self.pc = ((address as u32 + self.reg(0) as u32) % 4096) as u16;
            },
            Instruction::Random(x, mask) => {
                self.set_reg(x, random & mask);
                self.advance();
            },
            Instruction::Draw(x, y, rows) => {
                let collision = bus.draw_sprite(self.reg(x), self.reg(y), self.i, rows);
                self.set_flag(collision);
                self.advance();
            },
            Instruction::SkipIfPressed(x) => {
                let skip = bus.keypad().is_pressed(self.reg(x));
                self.skip_if(skip);
            },
            Instruction::SkipIfReleased(x) => {
                let skip = !bus.keypad().is_pressed(self.reg(x));
                self.skip_if(skip);
            },
            Instruction::ReadDelay(x) => {
                let value = self.delay_timer;
                self.set_reg(x, value);
                self.advance();
            },
            Instruction::WaitKey(x) => {
                match bus.keypad().first_pressed() {
                    Some(key) => {
                        self.set_reg(x, key);
                        self.advance();
                    },
                    None => {},
                }
            },
            Instruction::SetDelay(x) => {
                self.delay_timer = self.reg(x);
                self.advance();
            },
            Instruction::SetSound(x) => {
                self.sound_timer = self.reg(x);
                self.advance();
            },
            Instruction::AddIndex(x) => {
                self.i = ((self.i as u32 + self.reg(x) as u32) % 0x10000) as u16;
                self.advance();
            },
            Instruction::Glyph(x) => {
                self.i = FONTS_LOCATION + (self.reg(x) % 16) as u16 * GLYPH_SIZE;
                self.advance();
            },
            Instruction::Decimal(x) => {
                let value = self.reg(x);
                let mut digits: Vec<u8> = Vec::new();
                digits.push(value / 100);
                digits.push((value / 10) % 10);
                digits.push(value % 10);
                assert(digits@ =~= decimal_digits(value));
                bus.write_wrapped(self.i, &digits);
                self.advance();
            },
            Instruction::Store(x) => {
                let count: usize = (x % 16) as usize + 1;
                let mut bytes: Vec<u8> = Vec::new();
                let mut k: usize = 0;
                while k < count
                    invariant
                        k <= count <= 16,
                        bytes@ == self.v@.take(k as int),
                    decreases count - k,
                {
                    bytes.push(self.v[k]);
                    k = k + 1;
                    assert(bytes@ =~= self.v@.take(k as int));
                }
                bus.write_wrapped(self.i, &bytes);
                self.advance();
            },
            Instruction::Restore(x) => {
                self.restore(bus, x % 16 + 1);
                self.advance();
            },
            Instruction::Unknown(_) => {
                self.advance();
            },
        }
    }

    /// Runs one cycle with `random` as the byte that a `Random` instruction
    /// draws: fetches the instruction at the program counter, decodes and
    /// executes it.
    pub fn execute_cycle_with(&mut self, bus: &mut Interconnect, random: u8)
        ensures
            final(self)@ == cycle_cpu(old(self)@, old(bus)@, random),
            final(bus)@ == cycle_bus(old(self)@, old(bus)@),
    {
        reveal(cycle_cpu);
        reveal(cycle_bus);
        let opcode = self.fetch(bus);
        let instruction = decode(opcode);
        self.execute(bus, instruction, random);
    }

    /// Runs one cycle. A `Random` instruction draws its byte from the
    /// random source.
    pub fn execute_cycle(&mut self, bus: &mut Interconnect)
        ensures
            is_cycle(old(self)@, old(bus)@, final(self)@, final(bus)@),
    {
        let opcode = self.fetch(bus);
        let instruction = decode(opcode);
        let random: u8 = match instruction {
            Instruction::Random(_, _) => random_byte(),
            _ => 0,
        };
        self.execute(bus, instruction, random);
        assert(final(self)@ == cycle_cpu(old(self)@, old(bus)@, random)) by {
            reveal(cycle_cpu);
        }
        assert(final(bus)@ == cycle_bus(old(self)@, old(bus)@)) by {
            reveal(cycle_bus);
        }
    }
}

} // verus!
