//! The bare machine: a processor on a bus, with the glyph table and a
//! program in memory.

use vstd::prelude::*;
use crate::cpu::{cycle_bus, cycle_cpu, fresh_cpu, Cpu, CpuState};
use crate::display::Display;
use crate::interconnect::{BusState, Interconnect};
use crate::keypad::{Keypad, KeypadState};
use crate::mem_map::{
    font_set, fonts_loaded, overlay, rom_loaded, window, FONTS_LOCATION, FONT_SET_SIZE,
    MEMORY_SIZE, ROM_LOCATION,
};

verus! {

/// The input device is gone: a poll of the keypad failed.
#[derive(Clone, Copy, Debug, PartialEq, Eq)]
pub struct DeviceLost;

/// Whether the run loop goes on.
#[derive(Clone, Copy, Debug, PartialEq, Eq, Structural)]
pub enum Flow {
    /// The loop goes on with its next iteration.
    Continue,
    /// The input device is gone: the process is to end at once.
    Exit,
}

/// What the machine holds, as mathematics.
pub struct MachineState {
    pub cpu: CpuState,
    pub bus: BusState,
}

/// The machine after one step of the loop: a failed poll changes nothing;
/// after a successful one the keypad state is latched on the bus and one
/// cycle runs, in which a `Random` instruction draws `random`.
pub open spec fn step_spec(
    machine: MachineState,
    polled: Result<KeypadState, DeviceLost>,
    random: u8,
) -> MachineState {
    match polled {
        Err(_) => machine,
        Ok(state) => {
            let bus = BusState { keys: state.keys@, ..machine.bus };
            MachineState { cpu: cycle_cpu(machine.cpu, bus, random), bus: cycle_bus(machine.cpu, bus) }
        },
    }
}

/// How far a run over recorded polls has come.
pub struct RunState {
    /// The machine after the steps so far.
    pub machine: MachineState,
    /// Whether no poll has failed so far.
    pub alive: bool,
    /// How many cycles ran.
    pub cycles: nat,
}

/// The run loop over the recorded `polls`, one step per poll, until a poll
/// fails; `randoms[k]` is the byte that step `k` draws if its instruction
/// is a `Random`.
pub open spec fn run_spec(
    machine: MachineState,
    polls: Seq<Result<KeypadState, DeviceLost>>,
    randoms: Seq<u8>,
) -> RunState
    decreases polls.len(),
{
    if polls.len() == 0 {
        RunState { machine, alive: true, cycles: 0 }
    } else {
        let before = run_spec(machine, polls.drop_last(), randoms.drop_last());
        if !before.alive {
            before
        } else if polls.last() is Err {
            RunState { alive: false, ..before }
        } else {
            RunState {
                machine: step_spec(before.machine, polls.last(), randoms.last()),
                alive: true,
                cycles: before.cycles + 1,
            }
        }
    }
}

/// Once a poll has failed, the polls after it change nothing.
pub proof fn lemma_run_ends_at_loss(
    machine: MachineState,
    polls: Seq<Result<KeypadState, DeviceLost>>,
    randoms: Seq<u8>,
    k: int,
)
    requires
        0 <= k <= polls.len(),
        randoms.len() == polls.len(),
        !run_spec(machine, polls.take(k), randoms.take(k)).alive,
    ensures
        run_spec(machine, polls, randoms) == run_spec(machine, polls.take(k), randoms.take(k)),
    decreases polls.len() - k,
{
    if k == polls.len() {
        assert(polls.take(k) =~= polls);
        assert(randoms.take(k) =~= randoms);
    } else {
        assert(polls.take(k + 1).drop_last() =~= polls.take(k));
        assert(randoms.take(k + 1).drop_last() =~= randoms.take(k));
        lemma_run_ends_at_loss(machine, polls, randoms, k + 1);
    }
}

/// What a run reports when it returns.
#[derive(Clone, Copy, Debug)]
pub struct RunReport {
    /// How many cycles ran.
    pub cycles: usize,
    /// `Exit` if a poll failed, `Continue` if the recorded polls ran out.
    pub flow: Flow,
}

/// What a run reports, as mathematics, beside the machine that it left.
pub open spec fn report_view(report: RunReport, machine: MachineState) -> RunState {
    RunState { machine, alive: report.flow is Continue, cycles: report.cycles as nat }
}

/// The bare machine.
pub struct Chip8 {
    cpu: Cpu,
    interconnect: Interconnect,
}

impl View for Chip8 {
    type V = MachineState;

    closed spec fn view(&self) -> MachineState {
        MachineState { cpu: self.cpu@, bus: self.interconnect@ }
    }
}

impl Chip8 {
    /// A machine around the given devices: the glyph table in memory, the
    /// rest of memory zero, the processor fresh.
    pub fn new(display: Display, keypad: Keypad) -> (machine: Chip8)
        ensures
            machine@.cpu == fresh_cpu(),
            machine@.bus.memory == overlay(
                Seq::new(MEMORY_SIZE as nat, |a: int| 0u8),
                FONTS_LOCATION as int,
                font_set(),
            ),
            machine@.bus.display == display@,
            machine@.bus.keys == keypad@,
            fonts_loaded(machine@.bus.memory),
    {
        let mut interconnect = Interconnect::new(display, keypad);
        Chip8::load_fonts(&mut interconnect);
        Chip8 { cpu: Cpu::new(), interconnect }
    }

    /// Writes the glyph table to its place in memory.
    pub fn load_fonts(interconnect: &mut Interconnect)
        ensures
            final(interconnect)@.memory == overlay(
                old(interconnect)@.memory,
                FONTS_LOCATION as int,
                font_set(),
            ),
            final(interconnect)@.display == old(interconnect)@.display,
            final(interconnect)@.keys == old(interconnect)@.keys,
            fonts_loaded(final(interconnect)@.memory),
    {
        let glyphs: Vec<u8> = vec![
            0xF0, 0x90, 0x90, 0x90, 0xF0,
            0x20, 0x60, 0x20, 0x20, 0x70,
            0xF0, 0x10, 0xF0, 0x80, 0xF0,
            0xF0, 0x10, 0xF0, 0x10, 0xF0,
            0x90, 0x90, 0xF0, 0x10, 0x10,
            0xF0, 0x80, 0xF0, 0x10, 0xF0,
            0xF0, 0x80, 0xF0, 0x90, 0xF0,
            0xF0, 0x10, 0x20, 0x40, 0x40,
            0xF0, 0x90, 0xF0, 0x90, 0xF0,
            0xF0, 0x90, 0xF0, 0x10, 0xF0,
            0xF0, 0x90, 0xF0, 0x90, 0x90,
            0xE0, 0x90, 0xE0, 0x90, 0xE0,
            0xF0, 0x80, 0x80, 0x80, 0xF0,
            0xE0, 0x90, 0x90, 0x90, 0xE0,
            0xF0, 0x80, 0xF0, 0x80, 0xF0,
            0xF0, 0x80, 0xF0, 0x80, 0x80,
        ];
        proof {
            interconnect.lemma_shape();
        }
        interconnect.write_memory(FONTS_LOCATION, &glyphs);
        assert(window(interconnect@.memory, FONTS_LOCATION as int, FONT_SET_SIZE as int)
            =~= font_set());
    }

    /// Whether a program of `len` bytes fits between the program base and
    /// the end of memory.
    pub fn rom_fits(len: usize) -> (fits: bool)
        ensures
            fits == (ROM_LOCATION + len <= MEMORY_SIZE),
    {
        len <= MEMORY_SIZE - ROM_LOCATION as usize
    }

    /// Copies the program `rom` into memory from the program base on.
    pub fn load_rom(&mut self, rom: &Vec<u8>)
        requires
            ROM_LOCATION + rom.len() <= MEMORY_SIZE,
        ensures
            final(self)@.bus.memory == overlay(old(self)@.bus.memory, ROM_LOCATION as int, rom@),
            final(self)@.bus.display == old(self)@.bus.display,
            final(self)@.bus.keys == old(self)@.bus.keys,
            final(self)@.cpu == old(self)@.cpu,
            rom_loaded(final(self)@.bus.memory, rom@),
            fonts_loaded(old(self)@.bus.memory) ==> fonts_loaded(final(self)@.bus.memory),
    {
        proof {
            self.interconnect.lemma_shape();
        }
        self.interconnect.write_memory(ROM_LOCATION, rom);
        proof {
            let before = old(self)@.bus.memory;
            let after = self@.bus.memory;
            assert(window(after, ROM_LOCATION as int, rom@.len() as int) =~= rom@);
            if fonts_loaded(before) {
                assert(window(after, FONTS_LOCATION as int, FONT_SET_SIZE as int) =~= window(
                    before,
                    FONTS_LOCATION as int,
                    FONT_SET_SIZE as int,
                ));
            }
        }
    }

    /// One step of the loop, given what the poll of the keypad reported. A
    /// failed poll changes nothing and ends the loop; after a successful one
    /// the keypad state is latched on the bus and exactly one cycle runs.
    pub fn step(&mut self, polled: Result<KeypadState, DeviceLost>) -> (flow: Flow)
        ensures
            exists|random: u8| final(self)@ == #[trigger] step_spec(old(self)@, polled, random),
            flow == if polled is Err { Flow::Exit } else { Flow::Continue },
    {
        match polled {
            Err(_) => {
                assert(self@ == step_spec(old(self)@, polled, 0));
                Flow::Exit
            },
            Ok(keypad_state) => {
                self.interconnect.update_keypad(keypad_state);
                let ghost cpu = self.cpu@;
                let ghost bus = self.interconnect@;
                self.cpu.execute_cycle(&mut self.interconnect);
                proof {
                    let random = choose|random: u8|
                        self.cpu@ == #[trigger] cycle_cpu(cpu, bus, random) && self.interconnect@
                            == cycle_bus(cpu, bus);
                    assert(self@ == step_spec(old(self)@, polled, random));
                }
                Flow::Continue
            },
        }
    }

    /// Restarts the processor: it is replaced by a fresh one. The bus is
    /// left as it is.
    pub fn reset_cpu(&mut self)
        ensures
            final(self)@.cpu == fresh_cpu(),
            final(self)@.bus == old(self)@.bus,
    {
        self.cpu = Cpu::new();
    }

    /// The run loop over recorded polls: one step per poll, in order, until
    /// a poll fails or the recording ends.
    pub fn run(&mut self, polls: &Vec<Result<KeypadState, DeviceLost>>) -> (report: RunReport)
        ensures
            exists|randoms: Seq<u8>|
                randoms.len() == polls@.len() && report_view(report, final(self)@)
                    == #[trigger] run_spec(old(self)@, polls@, randoms),
            report.cycles <= polls@.len(),
    {
        let ghost mut randoms: Seq<u8> = Seq::empty();
        let mut alive = true;
        let mut cycles: usize = 0;
        let mut k: usize = 0;
        while k < polls.len() && alive
            invariant
                k <= polls.len(),
                cycles <= k,
                randoms.len() == k,
                run_spec(old(self)@, polls@.take(k as int), randoms) == (RunState {
                    machine: self@,
                    alive,
                    cycles: cycles as nat,
                }),
            decreases polls.len() - k,
        {
            let ghost before = self@;
            let polled = polls[k];
            match self.step(polled) {
                Flow::Continue => {
                    cycles = cycles + 1;
                },
                Flow::Exit => {
                    alive = false;
                },
            }
            proof {
                let random = choose|random: u8| self@ == #[trigger] step_spec(before, polled, random);
                assert(polls@.take(k + 1).drop_last() =~= polls@.take(k as int));
                assert(randoms.push(random).drop_last() =~= randoms);
                randoms = randoms.push(random);
            }
            k = k + 1;
        }
        let report = RunReport { cycles, flow: if alive { Flow::Continue } else { Flow::Exit } };
        proof {
            let padding = Seq::new((polls@.len() - k) as nat, |j: int| 0u8);
            let all = randoms + padding;
            assert(all.take(k as int) =~= randoms);
            if alive {
                assert(polls@.take(k as int) =~= polls@);
            } else {
                lemma_run_ends_at_loss(old(self)@, polls@, all, k as int);
            }
        }
        report
    }

    /// The processor.
    pub fn cpu(&self) -> (cpu: &Cpu)
        ensures
            cpu@ == self@.cpu,
    {
        &self.cpu
    }

    /// The bus.
    pub fn interconnect(&self) -> (bus: &Interconnect)
        ensures
            bus@ == self@.bus,
    {
        &self.interconnect
    }
}

} // verus!
