//! What holds of the debuggable machine whatever it is given.

use vstd::prelude::*;
use crate::chip8::{step_spec, DeviceLost, Flow, MachineState};
use crate::cpu::{cycle_bus, cycle_cpu, fresh_cpu};
use crate::chip8vm::{
    accepts_command, accepts_spec, control_after, handle_spec, next_state, polls_keypad_spec,
    started, trace_spec, turn_spec, Handled, LoopInput, VmState, VmView,
};
use crate::interconnect::BusState;
use crate::keypad::KeypadState;
use crate::mem_map::{fonts_loaded, window, MEMORY_SIZE};
use crate::remote_dbg::{answers_spec, DbgMessage, SnapshotView};

verus! {

/// A `STEP` is taken by a stopped machine and by no other.
pub proof fn law_step_only_when_stopped(state: VmState)
    ensures
        accepts_spec(state, DbgMessage::STEP) <==> state is STOPPED,
        accepts_command(state, Some(DbgMessage::STEP)) <==> state is STOPPED,
{
}

/// A `STEP` of a stopped machine whose keypad answers runs exactly one
/// cycle, on the bus with the keypad state latched, and leaves the machine
/// stopped; it sends nothing and the loop goes on. The iteration that takes
/// the `STEP` runs no second cycle.
pub proof fn law_step_runs_one_cycle(vm: VmView, keys: KeypadState, random: u8)
    requires
        vm.state is STOPPED,
    ensures
        ({
            let bus = BusState { keys: keys.keys@, ..vm.machine.bus };
            let after = Handled {
                vm: VmView {
                    machine: MachineState {
                        cpu: cycle_cpu(vm.machine.cpu, bus, random),
                        bus: cycle_bus(vm.machine.cpu, bus),
                    },
                    state: VmState::STOPPED,
                },
                reply: None,
                flow: Flow::Continue,
            };
            &&& handle_spec(vm, DbgMessage::STEP, Ok(keys), random) == after
            &&& turn_spec(
                vm,
                LoopInput { command: Some(DbgMessage::STEP), keypad: Ok(keys) },
                random,
            ) == after
        }),
{
}

/// A `RESTART` leaves the lifecycle state and the whole bus, memory
/// included, as they were, and a processor query that follows it is
/// answered with the snapshot of a fresh processor.
pub proof fn law_restart_gives_fresh_cpu(
    vm: VmView,
    polled: Result<KeypadState, DeviceLost>,
    random: u8,
    later_polled: Result<KeypadState, DeviceLost>,
    later_random: u8,
)
    ensures
        ({
            let restarted = handle_spec(vm, DbgMessage::RESTART, polled, random);
            let queried = handle_spec(restarted.vm, DbgMessage::CPU, later_polled, later_random);
            &&& restarted.vm.state == vm.state
            &&& restarted.vm.machine.bus == vm.machine.bus
            &&& restarted.vm.machine.cpu == fresh_cpu()
            &&& restarted.reply is None
            &&& restarted.flow is Continue
            &&& queried.reply == Some(SnapshotView::Cpu(fresh_cpu()))
            &&& queried.vm == restarted.vm
        }),
{
}

/// A memory query for a range inside memory is answered with exactly `len`
/// bytes, byte `j` of them the byte at `address + j`, and changes nothing.
pub proof fn law_query_mem_returns_the_range(
    vm: VmView,
    address: u16,
    len: u16,
    polled: Result<KeypadState, DeviceLost>,
    random: u8,
)
    requires
        vm.machine.bus.memory.len() == MEMORY_SIZE,
        address + len <= MEMORY_SIZE,
    ensures
        ({
            let handled = handle_spec(vm, DbgMessage::MEM(address, len), polled, random);
            &&& handled.vm == vm
            &&& handled.flow is Continue
            &&& handled.reply matches Some(SnapshotView::Mem(bytes))
            &&& bytes == window(vm.machine.bus.memory, address as int, len as int)
            &&& bytes.len() == len
            &&& forall|j: int| 0 <= j < len ==> bytes[j] == vm.machine.bus.memory[address + j]
        }),
{
}

/// No command but `STEP` writes to the bus. So the glyph table, once in
/// memory, is still there after a `START`, `STOP` or `RESTART`, and after
/// either query.
pub proof fn law_fonts_survive_control(
    vm: VmView,
    message: DbgMessage,
    polled: Result<KeypadState, DeviceLost>,
    random: u8,
)
    requires
        message !is STEP,
    ensures
        handle_spec(vm, message, polled, random).vm.machine.bus == vm.machine.bus,
        fonts_loaded(vm.machine.bus.memory) ==> fonts_loaded(
            handle_spec(vm, message, polled, random).vm.machine.bus.memory,
        ),
{
}

/// A command is answered with a snapshot exactly when it is a query: what
/// the session waits for is what the machine sends.
pub proof fn law_reply_iff_query(
    vm: VmView,
    input: LoopInput,
    message: DbgMessage,
    random: u8,
)
    ensures
        handle_spec(vm, message, input.keypad, random).reply is Some
            <==> message.expects_reply_spec(),
        turn_spec(vm, input, random).reply is Some <==> (input.command matches Some(m)
            && m.expects_reply_spec()),
{
}

/// What answers a query that the machine takes is a snapshot of the kind
/// asked for, and a memory snapshot has exactly the length asked for.
pub proof fn law_reply_answers_the_query(
    vm: VmView,
    message: DbgMessage,
    polled: Result<KeypadState, DeviceLost>,
    random: u8,
)
    requires
        vm.machine.bus.memory.len() == MEMORY_SIZE,
        accepts_spec(vm.state, message),
        message.expects_reply_spec(),
    ensures
        handle_spec(vm, message, polled, random).reply matches Some(snapshot) && answers_spec(
            snapshot,
            message,
        ),
{
}

/// The shape of one iteration. The waiting command is applied to the
/// machine as the last iteration left it, and the snapshot that answers a
/// query is taken of that machine; then a whole step runs, or none: one
/// runs exactly when the iteration polls the keypad. So what is sent never
/// shows a cycle half done, and an iteration runs at most one cycle.
pub proof fn law_turn_shape(vm: VmView, input: LoopInput, random: u8)
    requires
        accepts_command(vm.state, input.command),
    ensures
        ({
            let turn = turn_spec(vm, input, random);
            let base = if input.command == Some(DbgMessage::RESTART) {
                MachineState { cpu: fresh_cpu(), bus: vm.machine.bus }
            } else {
                vm.machine
            };
            &&& turn.vm.state == next_state(vm.state, input.command)
            &&& turn.reply == match input.command {
                Some(DbgMessage::CPU) => Some(SnapshotView::Cpu(vm.machine.cpu)),
                Some(DbgMessage::MEM(address, len)) => Some(
                    SnapshotView::Mem(window(vm.machine.bus.memory, address as int, len as int)),
                ),
                _ => None,
            }
            &&& turn.vm.machine == if polls_keypad_spec(vm.state, input.command) {
                step_spec(base, input.keypad, random)
            } else {
                base
            }
            &&& turn.flow is Exit <==> polls_keypad_spec(vm.state, input.command)
                && input.keypad is Err
        }),
{
}

/// An iteration that does not poll the keypad does not depend on what a
/// poll would have reported, nor on the random source.
pub proof fn law_unpolled_keypad_is_ignored(
    vm: VmView,
    command: Option<DbgMessage>,
    keypad: Result<KeypadState, DeviceLost>,
    other_keypad: Result<KeypadState, DeviceLost>,
    random: u8,
    other_random: u8,
)
    requires
        accepts_command(vm.state, command),
        !polls_keypad_spec(vm.state, command),
    ensures
        turn_spec(vm, LoopInput { command, keypad }, random) == turn_spec(
            vm,
            LoopInput { command, keypad: other_keypad },
            other_random,
        ),
{
}

/// An iteration whose poll of the keypad fails runs no cycle and ends the
/// loop: the bus is left as it was, and the processor too, unless the
/// command was a `RESTART`.
pub proof fn law_failed_poll_ends_the_loop(vm: VmView, input: LoopInput, random: u8)
    requires
        accepts_command(vm.state, input.command),
        polls_keypad_spec(vm.state, input.command),
        input.keypad is Err,
    ensures
        turn_spec(vm, input, random).flow is Exit,
        turn_spec(vm, input, random).vm.machine.bus == vm.machine.bus,
        turn_spec(vm, input, random).vm.machine.cpu == if input.command == Some(
            DbgMessage::RESTART,
        ) {
            fresh_cpu()
        } else {
            vm.machine.cpu
        },
{
}

/// In a run, the snapshot that answers the query of iteration `k` is taken
/// of the machine that the first `k` whole iterations left, and it is the
/// last snapshot sent when iteration `k` is over.
pub proof fn law_snapshots_at_iteration_boundaries(
    vm: VmView,
    inputs: Seq<LoopInput>,
    randoms: Seq<u8>,
    k: int,
)
    requires
        0 <= k < inputs.len(),
        randoms.len() == inputs.len(),
        trace_spec(vm, inputs.take(k), randoms.take(k)).alive,
        inputs[k].command matches Some(message) && message.expects_reply_spec(),
    ensures
        ({
            let before = trace_spec(vm, inputs.take(k), randoms.take(k));
            let after = trace_spec(vm, inputs.take(k + 1), randoms.take(k + 1));
            &&& after.replies.len() == before.replies.len() + 1
            &&& after.replies.drop_last() == before.replies
            &&& after.replies.last() == match inputs[k].command {
                Some(DbgMessage::MEM(address, len)) => SnapshotView::Mem(
                    window(before.vm.machine.bus.memory, address as int, len as int),
                ),
                _ => SnapshotView::Cpu(before.vm.machine.cpu),
            }
        }),
{
    assert(inputs.take(k + 1).drop_last() =~= inputs.take(k));
    assert(randoms.take(k + 1).drop_last() =~= randoms.take(k));
}

/// In a run, commands are taken in the order of the inputs, one for each
/// iteration: the run over the first `k + 1` inputs is the run over the
/// first `k` followed by one iteration on input `k`.
pub proof fn law_run_takes_inputs_in_order(
    vm: VmView,
    inputs: Seq<LoopInput>,
    randoms: Seq<u8>,
    k: int,
)
    requires
        0 <= k < inputs.len(),
        randoms.len() == inputs.len(),
        trace_spec(vm, inputs.take(k), randoms.take(k)).alive,
    ensures
        ({
            let before = trace_spec(vm, inputs.take(k), randoms.take(k));
            let after = trace_spec(vm, inputs.take(k + 1), randoms.take(k + 1));
            let turn = turn_spec(before.vm, inputs[k], randoms[k]);
            &&& after.vm == turn.vm
            &&& after.alive == turn.flow is Continue
            &&& after.turns == before.turns + 1
            &&& before.turns == k
        }),
    decreases k,
{
    assert(inputs.take(k + 1).drop_last() =~= inputs.take(k));
    assert(randoms.take(k + 1).drop_last() =~= randoms.take(k));
    if k > 0 {
        assert(inputs.take(k).drop_last() =~= inputs.take(k - 1));
        assert(randoms.take(k).drop_last() =~= randoms.take(k - 1));
        law_run_takes_inputs_in_order(vm, inputs, randoms, k - 1);
    }
}

/// In a run, once a poll of the keypad has failed nothing more happens:
/// whatever inputs follow, the machine, the snapshots sent and the count of
/// iterations are those of the run up to the failure.
pub proof fn law_nothing_runs_after_device_loss(
    vm: VmView,
    inputs: Seq<LoopInput>,
    randoms: Seq<u8>,
    k: int,
)
    requires
        0 <= k <= inputs.len(),
        randoms.len() == inputs.len(),
        !trace_spec(vm, inputs.take(k), randoms.take(k)).alive,
    ensures
        trace_spec(vm, inputs, randoms) == trace_spec(vm, inputs.take(k), randoms.take(k)),
        trace_spec(vm, inputs, randoms).turns <= k,
{
    crate::chip8vm::lemma_trace_ends_at_loss(vm, inputs, randoms, k);
    lemma_turns_bounded(vm, inputs.take(k), randoms.take(k));
}

/// A run makes at most one iteration for each input.
pub proof fn lemma_turns_bounded(vm: VmView, inputs: Seq<LoopInput>, randoms: Seq<u8>)
    ensures
        trace_spec(vm, inputs, randoms).turns <= inputs.len(),
    decreases inputs.len(),
{
    if inputs.len() > 0 {
        lemma_turns_bounded(vm, inputs.drop_last(), randoms.drop_last());
    }
}

/// A started machine is never `CREATED` again: from the start of the run
/// loop on, the lifecycle state is `RUNNING` or `STOPPED`, whatever the
/// inputs.
pub proof fn law_created_only_before_the_run(vm: VmView, inputs: Seq<LoopInput>, randoms: Seq<u8>)
    ensures
        trace_spec(started(vm), inputs, randoms).vm.state !is CREATED,
        control_after(VmState::RUNNING, inputs).0 !is CREATED,
    decreases inputs.len(),
{
    crate::chip8vm::lemma_trace_control(started(vm), inputs, randoms);
    if inputs.len() > 0 {
        law_created_only_before_the_run(vm, inputs.drop_last(), randoms.drop_last());
        crate::chip8vm::lemma_trace_control(started(vm), inputs.drop_last(), randoms.drop_last());
    }
}

} // verus!
