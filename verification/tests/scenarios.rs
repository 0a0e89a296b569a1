use chip8vm::chip8::{DeviceLost, Flow};
use chip8vm::chip8vm::{Chip8, LoopInput, VmState};
use chip8vm::cpu::CpuSnapshot;
use chip8vm::display::Display;
use chip8vm::keypad::{Keypad, KeypadState};
use chip8vm::mem_map::{FONTS_LOCATION, ROM_LOCATION};
use chip8vm::remote_dbg::{Chip8Snapshots, DbgMessage};

fn machine_with(rom: Vec<u8>) -> Chip8 {
    let mut vm = Chip8::new(Display::new(), Keypad::new());
    assert!(Chip8::rom_fits(rom.len()));
    vm.load_rom(&rom);
    vm
}

fn started_with(rom: Vec<u8>) -> Chip8 {
    let mut vm = machine_with(rom);
    vm.run(&Vec::new());
    vm
}

fn idle() -> Result<KeypadState, DeviceLost> {
    Ok(KeypadState::released())
}

fn command(message: DbgMessage) -> LoopInput {
    LoopInput { command: Some(message), keypad: idle() }
}

fn quiet() -> LoopInput {
    LoopInput { command: None, keypad: idle() }
}

fn cpu_of(reply: &Chip8Snapshots) -> CpuSnapshot {
    match reply {
        Chip8Snapshots::CPU(snapshot) => *snapshot,
        Chip8Snapshots::MEM(_) => panic!("a memory snapshot answered a processor query"),
    }
}

fn mem_of(reply: &Chip8Snapshots) -> Vec<u8> {
    match reply {
        Chip8Snapshots::MEM(bytes) => bytes.clone(),
        Chip8Snapshots::CPU(_) => panic!("a processor snapshot answered a memory query"),
    }
}

fn query_cpu(vm: &mut Chip8) -> CpuSnapshot {
    let outcome = vm.handle_dbg_message(DbgMessage::CPU, idle());
    assert_eq!(outcome.flow, Flow::Continue);
    cpu_of(&outcome.reply.expect("a processor query is answered"))
}

fn query_mem(vm: &mut Chip8, address: u16, len: u16) -> Vec<u8> {
    assert!(vm.accepts(&DbgMessage::MEM(address, len)));
    let outcome = vm.handle_dbg_message(DbgMessage::MEM(address, len), idle());
    assert_eq!(outcome.flow, Flow::Continue);
    mem_of(&outcome.reply.expect("a memory query is answered"))
}

#[test]
fn stop_step_then_query_cpu_shows_one_instruction_executed() {
    let mut vm = machine_with(vec![0x00, 0xE0]);
    let log = vm.run(&vec![
        command(DbgMessage::STOP),
        command(DbgMessage::STEP),
        command(DbgMessage::CPU),
    ]);
    assert_eq!(log.turns, 3);
    assert_eq!(log.flow, Flow::Continue);
    assert_eq!(log.replies.len(), 1);
    assert_eq!(cpu_of(&log.replies[0]).pc, ROM_LOCATION + 2);
    assert_eq!(vm.state(), VmState::STOPPED);
}

#[test]
fn stop_then_query_mem_at_fonts_returns_glyph_zero() {
    let mut vm = machine_with(vec![0x00, 0xE0]);
    let log = vm.run(&vec![command(DbgMessage::STOP), command(DbgMessage::MEM(FONTS_LOCATION, 5))]);
    assert_eq!(log.replies.len(), 1);
    assert_eq!(mem_of(&log.replies[0]), vec![0xF0, 0x90, 0x90, 0x90, 0xF0]);
}

#[test]
fn restart_while_running_then_query_cpu_shows_a_fresh_cpu() {
    let mut vm = started_with(vec![0x61, 0x07, 0x71, 0x01, 0x12, 0x02]);
    for _ in 0..5 {
        assert_eq!(vm.turn(quiet()).flow, Flow::Continue);
    }
    assert_eq!(vm.state(), VmState::RUNNING);
    assert_ne!(query_cpu(&mut vm).pc, ROM_LOCATION);
    let restarted = vm.handle_dbg_message(DbgMessage::RESTART, idle());
    assert!(restarted.reply.is_none());
    assert_eq!(restarted.flow, Flow::Continue);
    let snapshot = query_cpu(&mut vm);
    assert_eq!(snapshot.pc, ROM_LOCATION);
    assert_eq!(snapshot.v, [0u8; 16]);
    assert_eq!(snapshot.sp, 0);
    assert_eq!(vm.state(), VmState::RUNNING);
    assert_eq!(query_mem(&mut vm, ROM_LOCATION, 6), vec![0x61, 0x07, 0x71, 0x01, 0x12, 0x02]);
    assert_eq!(query_mem(&mut vm, FONTS_LOCATION, 5), vec![0xF0, 0x90, 0x90, 0x90, 0xF0]);
}

#[test]
fn keypad_failure_mid_run_ends_the_loop_before_later_commands() {
    let mut vm = machine_with(vec![0x71, 0x01, 0x12, 0x00]);
    let log = vm.run(&vec![
        quiet(),
        quiet(),
        LoopInput { command: None, keypad: Err(DeviceLost) },
        command(DbgMessage::STOP),
        command(DbgMessage::CPU),
    ]);
    assert_eq!(log.flow, Flow::Exit);
    assert_eq!(log.turns, 3);
    assert!(log.replies.is_empty());
    assert_eq!(vm.state(), VmState::RUNNING);
    assert_eq!(vm.cpu().snapshot().v[1], 1);
    assert_eq!(vm.cpu().snapshot().pc, ROM_LOCATION);
}

#[test]
fn a_new_machine_is_created_and_run_starts_it() {
    let mut vm = machine_with(vec![0x12, 0x00]);
    assert_eq!(vm.state(), VmState::CREATED);
    let log = vm.run(&Vec::new());
    assert_eq!(vm.state(), VmState::RUNNING);
    assert_eq!(log.turns, 0);
    assert_eq!(log.flow, Flow::Continue);
    assert!(log.replies.is_empty());
    assert_eq!(vm.cpu().snapshot().pc, ROM_LOCATION);
}

#[test]
fn start_and_stop_set_the_state_from_any_state() {
    let mut vm = started_with(vec![0x12, 0x00]);
    for first in [DbgMessage::START, DbgMessage::STOP] {
        vm.handle_dbg_message(first, idle());
        let outcome = vm.handle_dbg_message(DbgMessage::STOP, idle());
        assert!(outcome.reply.is_none());
        assert_eq!(vm.state(), VmState::STOPPED);
        vm.handle_dbg_message(first, idle());
        let outcome = vm.handle_dbg_message(DbgMessage::START, idle());
        assert!(outcome.reply.is_none());
        assert_eq!(vm.state(), VmState::RUNNING);
    }
    let mut created = machine_with(vec![0x12, 0x00]);
    created.handle_dbg_message(DbgMessage::STOP, idle());
    assert_eq!(created.state(), VmState::STOPPED);
    let mut created = machine_with(vec![0x12, 0x00]);
    created.handle_dbg_message(DbgMessage::START, idle());
    assert_eq!(created.state(), VmState::RUNNING);
}

#[test]
fn step_is_taken_only_by_a_stopped_machine() {
    let mut vm = machine_with(vec![0x71, 0x01, 0x12, 0x00]);
    assert!(!vm.accepts(&DbgMessage::STEP));
    vm.run(&Vec::new());
    assert!(!vm.accepts(&DbgMessage::STEP));
    vm.handle_dbg_message(DbgMessage::STOP, idle());
    assert!(vm.accepts(&DbgMessage::STEP));
    vm.handle_dbg_message(DbgMessage::START, idle());
    assert!(!vm.accepts(&DbgMessage::STEP));
}

#[test]
fn step_while_stopped_runs_one_cycle_and_stays_stopped() {
    let mut vm = started_with(vec![0x71, 0x01, 0x71, 0x01, 0x71, 0x01]);
    vm.handle_dbg_message(DbgMessage::STOP, idle());
    let outcome = vm.handle_dbg_message(DbgMessage::STEP, idle());
    assert!(outcome.reply.is_none());
    assert_eq!(outcome.flow, Flow::Continue);
    assert_eq!(vm.state(), VmState::STOPPED);
    let snapshot = query_cpu(&mut vm);
    assert_eq!(snapshot.pc, ROM_LOCATION + 2);
    assert_eq!(snapshot.v[1], 1);
    let outcome = vm.turn(command(DbgMessage::STEP));
    assert_eq!(outcome.flow, Flow::Continue);
    assert_eq!(vm.state(), VmState::STOPPED);
    let snapshot = query_cpu(&mut vm);
    assert_eq!(snapshot.pc, ROM_LOCATION + 4);
    assert_eq!(snapshot.v[1], 2);
}

#[test]
fn step_with_a_lost_keypad_ends_the_loop_without_a_cycle() {
    let mut vm = started_with(vec![0x71, 0x01]);
    vm.handle_dbg_message(DbgMessage::STOP, idle());
    let outcome = vm.handle_dbg_message(DbgMessage::STEP, Err(DeviceLost));
    assert_eq!(outcome.flow, Flow::Exit);
    assert!(outcome.reply.is_none());
    assert_eq!(vm.cpu().snapshot().pc, ROM_LOCATION);
    assert_eq!(vm.state(), VmState::STOPPED);
}

#[test]
fn a_stopped_machine_runs_no_cycle_but_still_answers() {
    let mut vm = started_with(vec![0x71, 0x01, 0x12, 0x00]);
    vm.turn(command(DbgMessage::STOP));
    let before = vm.cpu().snapshot();
    for _ in 0..10 {
        assert_eq!(vm.turn(quiet()).flow, Flow::Continue);
    }
    let lost = LoopInput { command: None, keypad: Err(DeviceLost) };
    assert_eq!(vm.turn(lost).flow, Flow::Continue);
    let outcome = vm.turn(LoopInput { command: Some(DbgMessage::CPU), keypad: Err(DeviceLost) });
    assert_eq!(outcome.flow, Flow::Continue);
    let snapshot = cpu_of(&outcome.reply.expect("a processor query is answered"));
    assert_eq!(snapshot.pc, before.pc);
    assert_eq!(snapshot.v, before.v);
}

#[test]
fn a_running_machine_runs_one_cycle_in_each_iteration() {
    let mut vm = started_with(vec![0x71, 0x01, 0x12, 0x00]);
    for expected in 1..=3u8 {
        vm.turn(quiet());
        assert_eq!(vm.cpu().snapshot().v[1], expected);
        vm.turn(quiet());
        assert_eq!(vm.cpu().snapshot().v[1], expected);
        assert_eq!(vm.cpu().snapshot().pc, ROM_LOCATION);
    }
}

#[test]
fn a_query_is_answered_from_before_the_cycle_of_its_iteration() {
    let mut vm = machine_with(vec![0x71, 0x01, 0x12, 0x00]);
    let log = vm.run(&vec![
        command(DbgMessage::CPU),
        quiet(),
        command(DbgMessage::CPU),
        command(DbgMessage::CPU),
    ]);
    assert_eq!(log.turns, 4);
    assert_eq!(log.replies.len(), 3);
    let first = cpu_of(&log.replies[0]);
    assert_eq!((first.pc, first.v[1]), (ROM_LOCATION, 0));
    let second = cpu_of(&log.replies[1]);
    assert_eq!((second.pc, second.v[1]), (ROM_LOCATION, 1));
    let third = cpu_of(&log.replies[2]);
    assert_eq!((third.pc, third.v[1]), (ROM_LOCATION + 2, 2));
    assert_eq!(vm.cpu().snapshot().v[1], 2);
    assert_eq!(vm.cpu().snapshot().pc, ROM_LOCATION);
}

#[test]
fn query_mem_returns_exactly_the_bytes_asked_for() {
    let mut vm = started_with(vec![0xDE, 0xAD, 0xBE, 0xEF]);
    assert_eq!(query_mem(&mut vm, ROM_LOCATION, 4), vec![0xDE, 0xAD, 0xBE, 0xEF]);
    assert_eq!(query_mem(&mut vm, ROM_LOCATION + 1, 2), vec![0xAD, 0xBE]);
    assert_eq!(query_mem(&mut vm, ROM_LOCATION + 3, 3), vec![0xEF, 0x00, 0x00]);
    assert_eq!(query_mem(&mut vm, 0x123, 0), Vec::<u8>::new());
    assert_eq!(query_mem(&mut vm, 0xFFF, 1), vec![0x00]);
    assert_eq!(query_mem(&mut vm, 0x1000, 0), Vec::<u8>::new());
    assert_eq!(query_mem(&mut vm, 0, 4096).len(), 4096);
    assert_eq!(vm.cpu().snapshot().pc, ROM_LOCATION);
    assert_eq!(vm.state(), VmState::RUNNING);
}

#[test]
fn query_mem_shows_what_the_program_wrote() {
    let mut vm = machine_with(vec![0x61, 0xEA, 0xA3, 0x00, 0xF1, 0x33, 0x12, 0x06]);
    let log = vm.run(&vec![
        quiet(),
        quiet(),
        command(DbgMessage::MEM(0x300, 3)),
        command(DbgMessage::MEM(0x300, 3)),
    ]);
    assert_eq!(mem_of(&log.replies[0]), vec![0, 0, 0]);
    assert_eq!(mem_of(&log.replies[1]), vec![2, 3, 4]);
}

#[test]
fn a_memory_query_beyond_the_end_of_memory_is_not_taken() {
    let vm = machine_with(vec![0x12, 0x00]);
    assert!(vm.accepts(&DbgMessage::MEM(0, 4096)));
    assert!(!vm.accepts(&DbgMessage::MEM(0, 4097)));
    assert!(!vm.accepts(&DbgMessage::MEM(0xFFF, 2)));
    assert!(!vm.accepts(&DbgMessage::MEM(0xFFFF, 0xFFFF)));
    assert!(vm.accepts(&DbgMessage::START));
    assert!(vm.accepts(&DbgMessage::STOP));
    assert!(vm.accepts(&DbgMessage::RESTART));
    assert!(vm.accepts(&DbgMessage::CPU));
}

#[test]
fn control_commands_leave_the_glyph_table_alone() {
    let mut vm = started_with(vec![0x12, 0x00]);
    let table = query_mem(&mut vm, FONTS_LOCATION, 80);
    assert_eq!(&table[0..5], &[0xF0, 0x90, 0x90, 0x90, 0xF0]);
    assert_eq!(&table[75..80], &[0xF0, 0x80, 0xF0, 0x80, 0x80]);
    for message in [
        DbgMessage::RESTART,
        DbgMessage::STOP,
        DbgMessage::RESTART,
        DbgMessage::START,
        DbgMessage::RESTART,
    ] {
        vm.handle_dbg_message(message, idle());
        assert_eq!(query_mem(&mut vm, FONTS_LOCATION, 80), table);
        assert_eq!(query_mem(&mut vm, ROM_LOCATION, 2), vec![0x12, 0x00]);
    }
}

#[test]
fn restart_does_not_change_the_state() {
    let mut vm = machine_with(vec![0x12, 0x00]);
    vm.handle_dbg_message(DbgMessage::RESTART, idle());
    assert_eq!(vm.state(), VmState::CREATED);
    vm.run(&Vec::new());
    vm.handle_dbg_message(DbgMessage::RESTART, idle());
    assert_eq!(vm.state(), VmState::RUNNING);
    vm.handle_dbg_message(DbgMessage::STOP, idle());
    vm.handle_dbg_message(DbgMessage::RESTART, idle());
    assert_eq!(vm.state(), VmState::STOPPED);
}

#[test]
fn only_queries_are_answered() {
    assert!(DbgMessage::CPU.expects_reply());
    assert!(DbgMessage::MEM(0, 0).expects_reply());
    assert!(!DbgMessage::START.expects_reply());
    assert!(!DbgMessage::STOP.expects_reply());
    assert!(!DbgMessage::RESTART.expects_reply());
    assert!(!DbgMessage::STEP.expects_reply());
    let mut vm = started_with(vec![0x12, 0x00]);
    vm.handle_dbg_message(DbgMessage::STOP, idle());
    for message in [
        DbgMessage::STEP,
        DbgMessage::RESTART,
        DbgMessage::CPU,
        DbgMessage::MEM(0, 1),
        DbgMessage::STOP,
        DbgMessage::START,
    ] {
        let outcome = vm.handle_dbg_message(message, idle());
        assert_eq!(outcome.reply.is_some(), message.expects_reply());
    }
}

#[test]
fn the_keypad_is_polled_on_a_step_and_while_running() {
    let mut vm = machine_with(vec![0x12, 0x00]);
    assert!(!vm.polls_keypad(&None));
    assert!(vm.polls_keypad(&Some(DbgMessage::START)));
    vm.run(&Vec::new());
    assert!(vm.polls_keypad(&None));
    assert!(vm.polls_keypad(&Some(DbgMessage::CPU)));
    assert!(vm.polls_keypad(&Some(DbgMessage::RESTART)));
    assert!(!vm.polls_keypad(&Some(DbgMessage::STOP)));
    vm.turn(command(DbgMessage::STOP));
    assert!(!vm.polls_keypad(&None));
    assert!(!vm.polls_keypad(&Some(DbgMessage::CPU)));
    assert!(!vm.polls_keypad(&Some(DbgMessage::MEM(0, 1))));
    assert!(!vm.polls_keypad(&Some(DbgMessage::RESTART)));
    assert!(vm.polls_keypad(&Some(DbgMessage::STEP)));
    assert!(vm.polls_keypad(&Some(DbgMessage::START)));
}

#[test]
fn a_start_command_runs_a_cycle_in_its_own_iteration() {
    let mut vm = started_with(vec![0x71, 0x01, 0x12, 0x00]);
    vm.turn(command(DbgMessage::STOP));
    assert_eq!(vm.cpu().snapshot().v[1], 0);
    vm.turn(command(DbgMessage::START));
    assert_eq!(vm.cpu().snapshot().v[1], 1);
    assert_eq!(vm.state(), VmState::RUNNING);
}

#[test]
fn a_restart_while_running_is_followed_by_the_cycle_of_its_iteration() {
    let mut vm = started_with(vec![0x71, 0x01, 0x71, 0x01, 0x12, 0x04]);
    vm.turn(quiet());
    vm.turn(quiet());
    assert_eq!(vm.cpu().snapshot().v[1], 2);
    vm.turn(command(DbgMessage::RESTART));
    let snapshot = vm.cpu().snapshot();
    assert_eq!(snapshot.v[1], 1);
    assert_eq!(snapshot.pc, ROM_LOCATION + 2);
}

#[test]
fn a_run_takes_its_commands_in_order() {
    let mut vm = machine_with(vec![0x71, 0x01, 0x12, 0x00]);
    let log = vm.run(&vec![
        command(DbgMessage::STOP),
        command(DbgMessage::STEP),
        command(DbgMessage::CPU),
        command(DbgMessage::RESTART),
        command(DbgMessage::CPU),
        command(DbgMessage::MEM(ROM_LOCATION, 2)),
        command(DbgMessage::START),
        command(DbgMessage::STOP),
        command(DbgMessage::CPU),
    ]);
    assert_eq!(log.turns, 9);
    assert_eq!(log.flow, Flow::Continue);
    assert_eq!(log.replies.len(), 4);
    assert_eq!(cpu_of(&log.replies[0]).v[1], 1);
    assert_eq!(cpu_of(&log.replies[1]).v[1], 0);
    assert_eq!(cpu_of(&log.replies[1]).pc, ROM_LOCATION);
    assert_eq!(mem_of(&log.replies[2]), vec![0x71, 0x01]);
    assert_eq!(cpu_of(&log.replies[3]).v[1], 1);
    assert_eq!(vm.state(), VmState::STOPPED);
}

#[test]
fn a_failed_poll_in_a_stopped_iteration_is_never_seen() {
    let mut vm = machine_with(vec![0x71, 0x01, 0x12, 0x00]);
    let lost = Err(DeviceLost);
    let log = vm.run(&vec![
        LoopInput { command: Some(DbgMessage::STOP), keypad: lost },
        LoopInput { command: None, keypad: lost },
        LoopInput { command: Some(DbgMessage::CPU), keypad: lost },
        LoopInput { command: Some(DbgMessage::STEP), keypad: lost },
        command(DbgMessage::CPU),
    ]);
    assert_eq!(log.flow, Flow::Exit);
    assert_eq!(log.turns, 4);
    assert_eq!(log.replies.len(), 1);
    assert_eq!(cpu_of(&log.replies[0]).pc, ROM_LOCATION);
    assert_eq!(vm.cpu().snapshot().pc, ROM_LOCATION);
}

#[test]
fn the_reply_of_the_iteration_that_loses_the_keypad_is_still_reported() {
    let mut vm = machine_with(vec![0x71, 0x01, 0x12, 0x00]);
    let log = vm.run(&vec![
        quiet(),
        LoopInput { command: Some(DbgMessage::CPU), keypad: Err(DeviceLost) },
        command(DbgMessage::CPU),
    ]);
    assert_eq!(log.flow, Flow::Exit);
    assert_eq!(log.turns, 2);
    assert_eq!(log.replies.len(), 1);
    assert_eq!(cpu_of(&log.replies[0]).v[1], 1);
}

#[test]
fn a_snapshot_answers_only_the_query_it_was_made_for() {
    let mut vm = started_with(vec![0x12, 0x00]);
    let cpu = vm.handle_dbg_message(DbgMessage::CPU, idle()).reply.expect("answered");
    assert!(cpu.answers(&DbgMessage::CPU));
    assert!(!cpu.answers(&DbgMessage::MEM(0, 0)));
    assert!(!cpu.answers(&DbgMessage::STEP));
    assert!(!cpu.answers(&DbgMessage::START));
    let mem = vm.handle_dbg_message(DbgMessage::MEM(0x200, 7), idle()).reply.expect("answered");
    assert!(mem.answers(&DbgMessage::MEM(0x200, 7)));
    assert!(mem.answers(&DbgMessage::MEM(0x300, 7)));
    assert!(!mem.answers(&DbgMessage::MEM(0x200, 6)));
    assert!(!mem.answers(&DbgMessage::MEM(0x200, 8)));
    assert!(!mem.answers(&DbgMessage::CPU));
    assert!(!mem.answers(&DbgMessage::RESTART));
    assert!(Chip8Snapshots::MEM(Vec::new()).answers(&DbgMessage::MEM(9, 0)));
}

#[test]
fn the_state_alone_decides_what_is_taken_and_when_the_keypad_is_polled() {
    for state in [VmState::CREATED, VmState::RUNNING, VmState::STOPPED] {
        assert_eq!(state.accepts(&DbgMessage::STEP), state == VmState::STOPPED);
        assert!(state.accepts(&DbgMessage::START));
        assert!(state.accepts(&DbgMessage::MEM(0xFF0, 16)));
        assert!(!state.accepts(&DbgMessage::MEM(0xFF0, 17)));
        assert_eq!(state.after(&Some(DbgMessage::START)), VmState::RUNNING);
        assert_eq!(state.after(&Some(DbgMessage::STOP)), VmState::STOPPED);
        for kept in [DbgMessage::RESTART, DbgMessage::STEP, DbgMessage::CPU, DbgMessage::MEM(1, 2)] {
            assert_eq!(state.after(&Some(kept)), state);
        }
        assert_eq!(state.after(&None), state);
        assert_eq!(state.polls_keypad(&None), state == VmState::RUNNING);
        assert!(state.polls_keypad(&Some(DbgMessage::STEP)));
        assert!(state.polls_keypad(&Some(DbgMessage::START)));
        assert!(!state.polls_keypad(&Some(DbgMessage::STOP)));
    }
}

#[test]
fn admits_tells_which_recordings_run_takes() {
    let lost = |message| LoopInput { command: message, keypad: Err(DeviceLost) };
    assert!(Chip8::admits(&Vec::new()));
    assert!(Chip8::admits(&vec![quiet(), command(DbgMessage::CPU), command(DbgMessage::STOP)]));
    assert!(!Chip8::admits(&vec![command(DbgMessage::STEP)]));
    assert!(Chip8::admits(&vec![command(DbgMessage::STOP), command(DbgMessage::STEP)]));
    assert!(!Chip8::admits(&vec![
        command(DbgMessage::STOP),
        command(DbgMessage::START),
        command(DbgMessage::STEP),
    ]));
    assert!(!Chip8::admits(&vec![command(DbgMessage::RESTART), command(DbgMessage::STEP)]));
    assert!(Chip8::admits(&vec![command(DbgMessage::MEM(0xFFF, 1))]));
    assert!(!Chip8::admits(&vec![quiet(), command(DbgMessage::MEM(0xFFF, 2))]));
    assert!(Chip8::admits(&vec![lost(None), command(DbgMessage::STEP)]));
    assert!(Chip8::admits(&vec![
        command(DbgMessage::STOP),
        lost(Some(DbgMessage::STEP)),
        command(DbgMessage::MEM(0xFFFF, 0xFFFF)),
    ]));
    assert!(!Chip8::admits(&vec![
        lost(Some(DbgMessage::STOP)),
        lost(None),
        command(DbgMessage::MEM(0xFFFF, 0xFFFF)),
    ]));
    assert!(!Chip8::admits(&vec![lost(Some(DbgMessage::STEP))]));
}
