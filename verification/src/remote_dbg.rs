//! What travels over the debug bridge: commands towards the machine,
//! snapshots back.

use vstd::prelude::*;
use crate::cpu::{CpuSnapshot, CpuState};

verus! {

/// A command from the debugger.
#[allow(non_camel_case_types)]
#[derive(Clone, Copy, Debug, PartialEq, Eq, Structural)]
pub enum DbgMessage {
    /// Let the machine run.
    START,
    /// Pause the machine.
    STOP,
    /// Replace the processor by a fresh one.
    RESTART,
    /// Run one cycle of the paused machine.
    STEP,
    /// Ask for a snapshot of the processor.
    CPU,
    /// Ask for the bytes of memory from an address on: address, then length.
    MEM(u16, u16),
}

impl DbgMessage {
    /// Whether the machine answers this command with a snapshot.
    pub open spec fn expects_reply_spec(self) -> bool {
        self is CPU || self is MEM
    }

    /// Whether the machine answers this command with a snapshot: the
    /// session waits for one after exactly these commands.
    pub fn expects_reply(&self) -> (expected: bool)
        ensures
            expected == self.expects_reply_spec(),
    {
        match self {
            DbgMessage::CPU => true,
            DbgMessage::MEM(_, _) => true,
            _ => false,
        }
    }
}

/// A snapshot sent back to the debugger.
#[allow(non_camel_case_types)]
#[derive(Debug)]
pub enum Chip8Snapshots {
    /// The processor's registers.
    CPU(CpuSnapshot),
    /// A range of memory.
    MEM(Vec<u8>),
}

/// A snapshot, as mathematics.
pub enum SnapshotView {
    Cpu(CpuState),
    Mem(Seq<u8>),
}

impl View for Chip8Snapshots {
    type V = SnapshotView;

    open spec fn view(&self) -> SnapshotView {
        match self {
            Chip8Snapshots::CPU(snapshot) => SnapshotView::Cpu(snapshot@),
            Chip8Snapshots::MEM(bytes) => SnapshotView::Mem(bytes@),
        }
    }
}

/// Whether `snapshot` is an answer to `message`: a processor snapshot to a
/// processor query, or a memory snapshot of exactly the length asked for to
/// a memory query.
pub open spec fn answers_spec(snapshot: SnapshotView, message: DbgMessage) -> bool {
    match (snapshot, message) {
        (SnapshotView::Cpu(_), DbgMessage::CPU) => true,
        (SnapshotView::Mem(bytes), DbgMessage::MEM(_, len)) => bytes.len() == len,
        _ => false,
    }
}

impl Chip8Snapshots {
    /// Whether this snapshot is an answer to `message`. The session sends
    /// back only a snapshot that answers the query it forwarded.
    pub fn answers(&self, message: &DbgMessage) -> (answered: bool)
        ensures
            answered == answers_spec(self@, *message),
    {
        match (self, message) {
            (Chip8Snapshots::CPU(_), DbgMessage::CPU) => true,
            (Chip8Snapshots::MEM(bytes), DbgMessage::MEM(_, len)) => bytes.len() == *len as usize,
            _ => false,
        }
    }
}

/// The reply to a command, if there is one, as mathematics.
pub open spec fn reply_view(reply: Option<Chip8Snapshots>) -> Option<SnapshotView> {
    match reply {
        Some(snapshot) => Some(snapshot@),
        None => None,
    }
}

/// The replies of a run, as mathematics.
pub open spec fn replies_view(replies: Seq<Chip8Snapshots>) -> Seq<SnapshotView> {
    Seq::new(replies.len(), |k: int| replies[k]@)
}

} // verus!
