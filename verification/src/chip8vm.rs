//! The debuggable machine: the bare machine under a lifecycle state that a
//! remote debugger drives.

use vstd::prelude::*;
use crate::chip8::{self, step_spec, DeviceLost, Flow, MachineState};
use crate::cpu::{fresh_cpu, Cpu};
use crate::display::Display;
use crate::interconnect::Interconnect;
use crate::keypad::{Keypad, KeypadState};
use crate::mem_map::{
    font_set, fonts_loaded, overlay, rom_loaded, window, FONTS_LOCATION, MEMORY_SIZE, ROM_LOCATION,
};
use crate::remote_dbg::{replies_view, reply_view, Chip8Snapshots, DbgMessage, SnapshotView};

verus! {

/// Where the machine is in its life.
#[allow(non_camel_case_types)]
#[derive(Clone, Copy, Debug, PartialEq, Eq, Structural)]
pub enum VmState {
    /// Built, not started yet.
    CREATED,
    /// Executing a cycle in every iteration of the loop.
    RUNNING,
    /// Paused: no cycle runs but on a `STEP`.
    STOPPED,
}

impl VmState {
    /// Whether a machine in this state takes `message`.
    pub fn accepts(self, message: &DbgMessage) -> (accepted: bool)
        ensures
            accepted == accepts_spec(self, *message),
    {
        match message {
            DbgMessage::STEP => match self {
                VmState::STOPPED => true,
                _ => false,
            },
            DbgMessage::MEM(address, len) => Interconnect::in_range(*address, *len as usize),
            _ => true,
        }
    }

    /// The state after `command`.
    pub fn after(self, command: &Option<DbgMessage>) -> (state: VmState)
        ensures
            state == next_state(self, *command),
    {
        match command {
            Some(DbgMessage::START) => VmState::RUNNING,
            Some(DbgMessage::STOP) => VmState::STOPPED,
            _ => self,
        }
    }

    /// Whether an iteration that starts in this state with `command`
    /// waiting polls the keypad.
    pub fn polls_keypad(self, command: &Option<DbgMessage>) -> (polls: bool)
        ensures
            polls == polls_keypad_spec(self, *command),
    {
        match command {
            Some(DbgMessage::STEP) => true,
            _ => match self.after(command) {
                VmState::RUNNING => true,
                _ => false,
            },
        }
    }
}

/// What the debuggable machine holds, as mathematics.
pub struct VmView {
    pub machine: MachineState,
    pub state: VmState,
}

/// What one iteration of the run loop is given: the command that was
/// waiting, if one was, and what a poll of the keypad reports. The keypad
/// is looked at only in an iteration that runs a cycle.
#[derive(Clone, Copy, Debug)]
pub struct LoopInput {
    pub command: Option<DbgMessage>,
    pub keypad: Result<KeypadState, DeviceLost>,
}

/// What handling a command, or a whole iteration, leaves for the caller to
/// do.
#[derive(Debug)]
pub struct DbgOutcome {
    /// The snapshot to send back, if the command asked for one.
    pub reply: Option<Chip8Snapshots>,
    /// Whether the loop goes on.
    pub flow: Flow,
}

/// The machine and the outcome after a command or an iteration, as
/// mathematics.
pub struct Handled {
    pub vm: VmView,
    pub reply: Option<SnapshotView>,
    pub flow: Flow,
}

/// What an outcome says, as mathematics, beside the machine `vm` that the
/// call left.
pub open spec fn outcome_view(outcome: DbgOutcome, vm: VmView) -> Handled {
    Handled { vm, reply: reply_view(outcome.reply), flow: outcome.flow }
}

/// The lifecycle state after `command`: only `START` and `STOP` change it.
pub open spec fn next_state(state: VmState, command: Option<DbgMessage>) -> VmState {
    match command {
        Some(DbgMessage::START) => VmState::RUNNING,
        Some(DbgMessage::STOP) => VmState::STOPPED,
        _ => state,
    }
}

/// Whether a machine in `state` takes `message`: a `STEP` only when it is
/// stopped, a memory query only for a range inside memory.
pub open spec fn accepts_spec(state: VmState, message: DbgMessage) -> bool {
    match message {
        DbgMessage::STEP => state is STOPPED,
        DbgMessage::MEM(address, len) => address + len <= MEMORY_SIZE,
        _ => true,
    }
}

/// Whether a machine in `state` takes the command of an iteration.
pub open spec fn accepts_command(state: VmState, command: Option<DbgMessage>) -> bool {
    match command {
        Some(message) => accepts_spec(state, message),
        None => true,
    }
}

/// Whether an iteration that starts in `state` with `command` waiting runs
/// a cycle, and so polls the keypad: on a `STEP`, and whenever the machine
/// is running once the command is applied.
pub open spec fn polls_keypad_spec(state: VmState, command: Option<DbgMessage>) -> bool {
    command == Some(DbgMessage::STEP) || next_state(state, command) is RUNNING
}

/// The machine after `message`, and what is to be sent back. `polled` and
/// `random` matter to a `STEP` alone: it runs one step of the bare machine.
pub open spec fn handle_spec(
    vm: VmView,
    message: DbgMessage,
    polled: Result<KeypadState, DeviceLost>,
    random: u8,
) -> Handled {
    match message {
        DbgMessage::START => Handled {
            vm: VmView { state: VmState::RUNNING, ..vm },
            reply: None,
            flow: Flow::Continue,
        },
        DbgMessage::STOP => Handled {
            vm: VmView { state: VmState::STOPPED, ..vm },
            reply: None,
            flow: Flow::Continue,
        },
        DbgMessage::RESTART => Handled {
            vm: VmView { machine: MachineState { cpu: fresh_cpu(), ..vm.machine }, ..vm },
            reply: None,
            flow: Flow::Continue,
        },
        DbgMessage::CPU => Handled {
            vm,
            reply: Some(SnapshotView::Cpu(vm.machine.cpu)),
            flow: Flow::Continue,
        },
        DbgMessage::MEM(address, len) => Handled {
            vm,
            reply: Some(SnapshotView::Mem(window(vm.machine.bus.memory, address as int, len as int))),
            flow: Flow::Continue,
        },
        DbgMessage::STEP => Handled {
            vm: VmView { machine: step_spec(vm.machine, polled, random), ..vm },
            reply: None,
            flow: if polled is Err { Flow::Exit } else { Flow::Continue },
        },
    }
}

/// The machine after one iteration of the run loop: the waiting command,
/// if there is one, is handled; then, if the loop goes on and the machine
/// is running, one step of the bare machine runs.
pub open spec fn turn_spec(vm: VmView, input: LoopInput, random: u8) -> Handled {
    let handled = match input.command {
        Some(message) => handle_spec(vm, message, input.keypad, random),
        None => Handled { vm, reply: None, flow: Flow::Continue },
    };
    if handled.flow is Continue && handled.vm.state is RUNNING {
        Handled {
            vm: VmView { machine: step_spec(handled.vm.machine, input.keypad, random), ..handled.vm },
            reply: handled.reply,
            flow: if input.keypad is Err { Flow::Exit } else { Flow::Continue },
        }
    } else {
        handled
    }
}

/// How far a run over recorded inputs has come.
pub struct TraceState {
    /// The machine after the iterations so far.
    pub vm: VmView,
    /// The snapshots sent so far, in order.
    pub replies: Seq<SnapshotView>,
    /// Whether no poll has failed so far.
    pub alive: bool,
    /// How many iterations ran.
    pub turns: nat,
}

/// The run loop over the recorded `inputs`, one iteration per input in
/// order, until a poll of the keypad fails; `randoms[k]` is the byte that
/// iteration `k` draws if its instruction is a `Random`.
pub open spec fn trace_spec(vm: VmView, inputs: Seq<LoopInput>, randoms: Seq<u8>) -> TraceState
    decreases inputs.len(),
{
    if inputs.len() == 0 {
        TraceState { vm, replies: Seq::empty(), alive: true, turns: 0 }
    } else {
        let before = trace_spec(vm, inputs.drop_last(), randoms.drop_last());
        if !before.alive {
            before
        } else {
            let turn = turn_spec(before.vm, inputs.last(), randoms.last());
            TraceState {
                vm: turn.vm,
                replies: match turn.reply {
                    Some(reply) => before.replies.push(reply),
                    None => before.replies,
                },
                alive: turn.flow is Continue,
                turns: before.turns + 1,
            }
        }
    }
}

/// The lifecycle state after the recorded `inputs`, and whether the loop
/// is still alive: neither depends on what the processor computes.
pub open spec fn control_after(state: VmState, inputs: Seq<LoopInput>) -> (VmState, bool)
    decreases inputs.len(),
{
    if inputs.len() == 0 {
        (state, true)
    } else {
        let before = control_after(state, inputs.drop_last());
        if !before.1 {
            before
        } else {
            (
                next_state(before.0, inputs.last().command),
                !(polls_keypad_spec(before.0, inputs.last().command) && inputs.last().keypad is Err),
            )
        }
    }
}

/// Whether a machine in `state` takes every command of the recorded
/// `inputs` that the loop gets to before a poll fails.
pub open spec fn admissible(state: VmState, inputs: Seq<LoopInput>) -> bool {
    forall|k: int|
        0 <= k < inputs.len() && (#[trigger] control_after(state, inputs.take(k))).1
            ==> accepts_command(control_after(state, inputs.take(k)).0, inputs[k].command)
}

/// Once a poll has failed, the loop stays ended whatever inputs follow.
pub proof fn lemma_control_stays_lost(state: VmState, inputs: Seq<LoopInput>, k: int, j: int)
    requires
        0 <= k <= j <= inputs.len(),
        !control_after(state, inputs.take(k)).1,
    ensures
        !control_after(state, inputs.take(j)).1,
    decreases j - k,
{
    if k < j {
        lemma_control_stays_lost(state, inputs, k, j - 1);
        assert(inputs.take(j).drop_last() =~= inputs.take(j - 1));
    }
}

/// The lifecycle state and the liveness of a run are those of its control
/// projection.
pub proof fn lemma_trace_control(vm: VmView, inputs: Seq<LoopInput>, randoms: Seq<u8>)
    ensures
        trace_spec(vm, inputs, randoms).vm.state == control_after(vm.state, inputs).0,
        trace_spec(vm, inputs, randoms).alive == control_after(vm.state, inputs).1,
    decreases inputs.len(),
{
    if inputs.len() > 0 {
        lemma_trace_control(vm, inputs.drop_last(), randoms.drop_last());
    }
}

/// Once a poll has failed, the inputs after it change nothing.
pub proof fn lemma_trace_ends_at_loss(
    vm: VmView,
    inputs: Seq<LoopInput>,
    randoms: Seq<u8>,
    k: int,
)
    requires
        0 <= k <= inputs.len(),
        randoms.len() == inputs.len(),
        !trace_spec(vm, inputs.take(k), randoms.take(k)).alive,
    ensures
        trace_spec(vm, inputs, randoms) == trace_spec(vm, inputs.take(k), randoms.take(k)),
    decreases inputs.len() - k,
{
    if k == inputs.len() {
        assert(inputs.take(k) =~= inputs);
        assert(randoms.take(k) =~= randoms);
    } else {
        assert(inputs.take(k + 1).drop_last() =~= inputs.take(k));
        assert(randoms.take(k + 1).drop_last() =~= randoms.take(k));
        lemma_trace_ends_at_loss(vm, inputs, randoms, k + 1);
    }
}

/// What a run reports when it returns.
#[derive(Debug)]
pub struct RunLog {
    /// The snapshots that were to be sent, in order.
    pub replies: Vec<Chip8Snapshots>,
    /// How many iterations ran.
    pub turns: usize,
    /// `Exit` if a poll failed, `Continue` if the recorded inputs ran out.
    pub flow: Flow,
}

/// What a run reports, as mathematics, beside the machine `vm` that it
/// left.
pub open spec fn log_view(log: RunLog, vm: VmView) -> TraceState {
    TraceState {
        vm,
        replies: replies_view(log.replies@),
        alive: log.flow is Continue,
        turns: log.turns as nat,
    }
}

/// `vm` once the run loop has started.
pub open spec fn started(vm: VmView) -> VmView {
    VmView { state: VmState::RUNNING, ..vm }
}

/// The debuggable machine.
pub struct Chip8 {
    machine: chip8::Chip8,
    state: VmState,
}

impl View for Chip8 {
    type V = VmView;

    closed spec fn view(&self) -> VmView {
        VmView { machine: self.machine@, state: self.state }
    }
}

impl Chip8 {
    /// A machine around the given devices, in the state `CREATED`: the
    /// glyph table in memory, the rest of memory zero, the processor fresh.
    pub fn new(display: Display, keypad: Keypad) -> (vm: Chip8)
        ensures
            vm@.state is CREATED,
            vm@.machine.cpu == fresh_cpu(),
            vm@.machine.bus.memory == overlay(
                Seq::new(MEMORY_SIZE as nat, |a: int| 0u8),
                FONTS_LOCATION as int,
                font_set(),
            ),
            vm@.machine.bus.display == display@,
            vm@.machine.bus.keys == keypad@,
            fonts_loaded(vm@.machine.bus.memory),
    {
        Chip8 { machine: chip8::Chip8::new(display, keypad), state: VmState::CREATED }
    }

    /// Writes the glyph table to its place in memory.
    pub fn load_fonts(interconnect: &mut Interconnect)
        ensures
            final(interconnect)@.memory == overlay(
                old(interconnect)@.memory,
                FONTS_LOCATION as int,
                font_set(),
            ),
            final(interconnect)@.display == old(interconnect)@.display,
            final(interconnect)@.keys == old(interconnect)@.keys,
            fonts_loaded(final(interconnect)@.memory),
    {
        chip8::Chip8::load_fonts(interconnect);
    }

    /// Whether a program of `len` bytes fits between the program base and
    /// the end of memory.
    pub fn rom_fits(len: usize) -> (fits: bool)
        ensures
            fits == (ROM_LOCATION + len <= MEMORY_SIZE),
    {
        chip8::Chip8::rom_fits(len)
    }

    /// Copies the program `rom` into memory from the program base on.
    pub fn load_rom(&mut self, rom: &Vec<u8>)
        requires
            ROM_LOCATION + rom.len() <= MEMORY_SIZE,
        ensures
            final(self)@.machine.bus.memory == overlay(
                old(self)@.machine.bus.memory,
                ROM_LOCATION as int,
                rom@,
            ),
            final(self)@.machine.bus.display == old(self)@.machine.bus.display,
            final(self)@.machine.bus.keys == old(self)@.machine.bus.keys,
            final(self)@.machine.cpu == old(self)@.machine.cpu,
            final(self)@.state == old(self)@.state,
            rom_loaded(final(self)@.machine.bus.memory, rom@),
            fonts_loaded(old(self)@.machine.bus.memory) ==> fonts_loaded(
                final(self)@.machine.bus.memory,
            ),
    {
        self.machine.load_rom(rom);
    }

    /// The lifecycle state.
    pub fn state(&self) -> (state: VmState)
        ensures
            state == self@.state,
    {
        self.state
    }

    /// The processor.
    pub fn cpu(&self) -> (cpu: &Cpu)
        ensures
            cpu@ == self@.machine.cpu,
    {
        self.machine.cpu()
    }

    /// The bus.
    pub fn interconnect(&self) -> (bus: &Interconnect)
        ensures
            bus@ == self@.machine.bus,
    {
        self.machine.interconnect()
    }

    /// Whether the machine takes `message` as it is now.
    pub fn accepts(&self, message: &DbgMessage) -> (accepted: bool)
        ensures
            accepted == accepts_spec(self@.state, *message),
    {
        self.state.accepts(message)
    }

    /// Whether an iteration with `command` waiting polls the keypad.
    pub fn polls_keypad(&self, command: &Option<DbgMessage>) -> (polls: bool)
        ensures
            polls == polls_keypad_spec(self@.state, *command),
    {
        self.state.polls_keypad(command)
    }

    /// Whether `run` takes the recorded `inputs`: whether each command that
    /// the loop gets to, before a poll fails, is one that the machine takes
    /// in the state it is in by then.
    pub fn admits(inputs: &Vec<LoopInput>) -> (admitted: bool)
        ensures
            admitted == admissible(VmState::RUNNING, inputs@),
    {
        let mut state = VmState::RUNNING;
        let mut k: usize = 0;
        while k < inputs.len()
            invariant
                k <= inputs.len(),
                control_after(VmState::RUNNING, inputs@.take(k as int)) == (state, true),
                forall|j: int|
                    0 <= j < k && (#[trigger] control_after(
                        VmState::RUNNING,
                        inputs@.take(j),
                    )).1 ==> accepts_command(
                        control_after(VmState::RUNNING, inputs@.take(j)).0,
                        inputs@[j].command,
                    ),
            decreases inputs.len() - k,
        {
            let input = inputs[k];
            let accepted = match &input.command {
                Some(message) => state.accepts(message),
                None => true,
            };
            if !accepted {
                return false;
            }
            let lost = match input.keypad {
                Ok(_) => false,
                Err(_) => true,
            };
            proof {
                assert(inputs@.take(k + 1).drop_last() =~= inputs@.take(k as int));
            }
            if lost && state.polls_keypad(&input.command) {
                proof {
                    assert forall|j: int|
                        k < j < inputs@.len() implies !(#[trigger] control_after(
                        VmState::RUNNING,
                        inputs@.take(j),
                    )).1 by {
                        lemma_control_stays_lost(VmState::RUNNING, inputs@, k + 1, j);
                    }
                }
                return true;
            }
            state = state.after(&input.command);
            k = k + 1;
        }
        true
    }

    /// One step of the bare machine, given what the poll of the keypad
    /// reported. A failed poll changes nothing and ends the loop; after a
    /// successful one the keypad state is latched on the bus and exactly one
    /// cycle runs. The lifecycle state stays.
    pub fn step(&mut self, polled: Result<KeypadState, DeviceLost>) -> (flow: Flow)
        ensures
            exists|random: u8|
                final(self)@.machine == #[trigger] step_spec(old(self)@.machine, polled, random),
            final(self)@.state == old(self)@.state,
            flow == if polled is Err { Flow::Exit } else { Flow::Continue },
    {
        let flow = self.machine.step(polled);
        proof {
            let random = choose|random: u8|
                self.machine@ == #[trigger] step_spec(old(self).machine@, polled, random);
            assert(self@.machine == step_spec(old(self)@.machine, polled, random));
        }
        flow
    }

    /// Applies one debugger command. `START` and `STOP` set the lifecycle
    /// state; `RESTART` replaces the processor by a fresh one and leaves
    /// memory and the state alone; the two queries change nothing and hand
    /// back a snapshot; `STEP` runs one step of the stopped machine with
    /// what the poll of the keypad reported, and leaves it stopped. `polled`
    /// matters to a `STEP` alone.
    pub fn handle_dbg_message(
        &mut self,
        message: DbgMessage,
        polled: Result<KeypadState, DeviceLost>,
    ) -> (outcome: DbgOutcome)
        requires
            accepts_spec(old(self)@.state, message),
        ensures
            exists|random: u8|
                outcome_view(outcome, final(self)@) == #[trigger] handle_spec(
                    old(self)@,
                    message,
                    polled,
                    random,
                ),
            outcome.reply is Some == message.expects_reply_spec(),
    {
        let outcome = match message {
            DbgMessage::START => {
                self.state = VmState::RUNNING;
                DbgOutcome { reply: None, flow: Flow::Continue }
            },
            DbgMessage::STOP => {
                self.state = VmState::STOPPED;
                DbgOutcome { reply: None, flow: Flow::Continue }
            },
            DbgMessage::RESTART => {
                self.machine.reset_cpu();
                DbgOutcome { reply: None, flow: Flow::Continue }
            },
            DbgMessage::CPU => {
                let snapshot = self.machine.cpu().snapshot();
                DbgOutcome { reply: Some(Chip8Snapshots::CPU(snapshot)), flow: Flow::Continue }
            },
            DbgMessage::MEM(address, len) => {
                let bytes = self.machine.interconnect().read_memory(address, len);
                DbgOutcome { reply: Some(Chip8Snapshots::MEM(bytes)), flow: Flow::Continue }
            },
            DbgMessage::STEP => {
                let flow = self.step(polled);
                DbgOutcome { reply: None, flow }
            },
        };
        proof {
            let random = if message is STEP {
                choose|random: u8|
                    self@.machine == #[trigger] step_spec(old(self)@.machine, polled, random)
            } else {
                0u8
            };
            assert(outcome_view(outcome, self@) == handle_spec(old(self)@, message, polled, random));
        }
        outcome
    }

    /// One iteration of the run loop: the waiting command, if there is one,
    /// is handled; then, if the loop goes on and the machine is running, one
    /// step runs. So at most one command is taken and at most one cycle runs.
    pub fn turn(&mut self, input: LoopInput) -> (outcome: DbgOutcome)
        requires
            accepts_command(old(self)@.state, input.command),
        ensures
            exists|random: u8|
                outcome_view(outcome, final(self)@) == #[trigger] turn_spec(
                    old(self)@,
                    input,
                    random,
                ),
    {
        let mut outcome = match input.command {
            Some(message) => self.handle_dbg_message(message, input.keypad),
            None => DbgOutcome { reply: None, flow: Flow::Continue },
        };
        let ghost handled = outcome_view(outcome, self@);
        let running = match self.state {
            VmState::RUNNING => true,
            _ => false,
        };
        let going = match outcome.flow {
            Flow::Continue => true,
            Flow::Exit => false,
        };
        if going && running {
            outcome.flow = self.step(input.keypad);
        }
        proof {
            let random = if going && running {
                choose|random: u8|
                    self@.machine == #[trigger] step_spec(handled.vm.machine, input.keypad, random)
            } else if let Some(message) = input.command {
                choose|random: u8|
                    handled == #[trigger] handle_spec(old(self)@, message, input.keypad, random)
            } else {
                0u8
            };
            assert(outcome_view(outcome, self@) == turn_spec(old(self)@, input, random));
        }
        outcome
    }

    /// Starts the machine and runs the loop over recorded inputs: one
    /// iteration per input, in order, until a poll of the keypad fails or
    /// the recording ends. With an empty recording it only starts the
    /// machine; a host then drives it by `turn`.
    pub fn run(&mut self, inputs: &Vec<LoopInput>) -> (log: RunLog)
        requires
            old(self)@.state is CREATED,
            admissible(VmState::RUNNING, inputs@),
        ensures
            exists|randoms: Seq<u8>|
                randoms.len() == inputs@.len() && log_view(log, final(self)@)
                    == #[trigger] trace_spec(started(old(self)@), inputs@, randoms),
            log.turns <= inputs@.len(),
    {
        self.state = VmState::RUNNING;
        let ghost start = self@;
        let ghost mut randoms: Seq<u8> = Seq::empty();
        let mut replies: Vec<Chip8Snapshots> = Vec::new();
        let mut alive = true;
        let mut k: usize = 0;
        assert(replies_view(replies@) =~= Seq::<SnapshotView>::empty());
        while k < inputs.len() && alive
            invariant
                k <= inputs.len(),
                randoms.len() == k,
                start.state is RUNNING,
                admissible(VmState::RUNNING, inputs@),
                trace_spec(start, inputs@.take(k as int), randoms) == (TraceState {
                    vm: self@,
                    replies: replies_view(replies@),
                    alive,
                    turns: k as nat,
                }),
            decreases inputs.len() - k,
        {
            let input = inputs[k];
            proof {
                lemma_trace_control(start, inputs@.take(k as int), randoms);
            }
            let ghost before = self@;
            let ghost sent = replies_view(replies@);
            let outcome = self.turn(input);
            let ghost reply = reply_view(outcome.reply);
            let ghost flow = outcome.flow;
            alive = match outcome.flow {
                Flow::Continue => true,
                Flow::Exit => false,
            };
            match outcome.reply {
                Some(snapshot) => {
                    replies.push(snapshot);
                    assert(replies_view(replies@) =~= sent.push(reply->0));
                },
                None => {},
            }
            proof {
                let random = choose|random: u8|
                    (Handled { vm: self@, reply, flow }) == #[trigger] turn_spec(
                        before,
                        input,
                        random,
                    );
                assert(inputs@.take(k + 1).drop_last() =~= inputs@.take(k as int));
                assert(randoms.push(random).drop_last() =~= randoms);
                randoms = randoms.push(random);
            }
            k = k + 1;
        }
        proof {
            let padding = Seq::new((inputs@.len() - k) as nat, |j: int| 0u8);
            let all = randoms + padding;
            assert(all.take(k as int) =~= randoms);
            if alive {
                assert(inputs@.take(k as int) =~= inputs@);
            } else {
                lemma_trace_ends_at_loss(start, inputs@, all, k as int);
            }
        }
        RunLog { replies, turns: k, flow: if alive { Flow::Continue } else { Flow::Exit } }
    }
}

} // verus!
