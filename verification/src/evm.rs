//! Raw per-instruction execution snapshots as the external tracer captures
//! them: opcode identifier, program counter, remaining gas, and the full
//! operand stack at that point. Read-only input for the handlers.

use vstd::prelude::*;

use crate::Error;
use crate::word::Word;

verus! {

/// Identifier of one machine instruction in the interpreted program.
/// The instruction set is closed: one variant per instruction family
/// this library handles.
#[allow(non_camel_case_types)]
#[derive(Clone, Copy, Debug, PartialEq, Eq, Hash, Structural)]
pub enum OpcodeId {
    /// Halt execution.
    STOP,
    /// Retrieve the current transaction's gas price and push it on the stack.
    GASPRICE,
}

/// How many slots the operand stack holds.
pub const STACK_DEPTH: usize = 1024;

/// A stack slot's address: its distance from a fixed top, in `0..1024`,
/// with the conventional resting top at the high end. A stack holding one
/// value has that value at address `1023`.
#[derive(Clone, Copy, Debug, PartialEq, Eq, Hash, Structural)]
pub struct StackAddress(pub usize);

/// The operand stack of one raw snapshot: bottom first, at most 1024 deep.
#[derive(Clone, Debug, PartialEq, Eq)]
pub struct Stack(pub Vec<Word>);

impl View for Stack {
    type V = Seq<Word>;

    open spec fn view(&self) -> Seq<Word> {
        self.0@
    }
}

impl Stack {
    /// The snapshot respects the machine's fixed stack depth.
    pub open spec fn wf(self) -> bool {
        self@.len() <= STACK_DEPTH
    }

    /// An empty stack.
    pub fn new() -> (s: Stack)
        ensures
            s@ == Seq::<Word>::empty(),
    {
        Stack(Vec::new())
    }

    /// A stack holding the given values, bottom first.
    pub fn from_vec(values: Vec<Word>) -> (s: Stack)
        ensures
            s@ == values@,
    {
        Stack(values)
    }

    /// The value at the top of the stack, or a stack-access error when the
    /// snapshot is empty.
    pub fn last(&self) -> (r: Result<Word, Error>)
        ensures
            self@.len() > 0 ==> r == Ok::<Word, Error>(self@.last()),
            self@.len() == 0 ==> r == Err::<Word, Error>(Error::StackUnderflow),
    {
        let n = self.0.len();
        if n > 0 {
            Ok(self.0[n - 1])
        } else {
            Err(Error::StackUnderflow)
        }
    }

    /// The address of the highest filled slot; one past the addressable
    /// range (`1024`) when the stack is empty.
    pub fn last_filled(&self) -> (a: StackAddress)
        requires
            self.wf(),
        ensures
            a.0 == STACK_DEPTH - self@.len(),
    {
        StackAddress(STACK_DEPTH - self.0.len())
    }
}

/// One captured per-instruction snapshot, immutable once produced by the
/// external tracer.
#[derive(Clone, Debug, PartialEq, Eq)]
pub struct GethExecStep {
    /// The instruction this snapshot belongs to.
    pub op: OpcodeId,
    /// The program counter at this step.
    pub pc: u64,
    /// The gas remaining before this step executes.
    pub gas: u64,
    /// The operand stack before this step executes.
    pub stack: Stack,
}

/// The mathematical image of one raw snapshot.
#[verifier::ext_equal]
pub struct GethExecStepV {
    /// The instruction this snapshot belongs to.
    pub op: OpcodeId,
    /// The program counter at this step.
    pub pc: u64,
    /// The gas remaining before this step executes.
    pub gas: u64,
    /// The operand stack, bottom first.
    pub stack: Seq<Word>,
}

impl View for GethExecStep {
    type V = GethExecStepV;

    open spec fn view(&self) -> GethExecStepV {
        GethExecStepV { op: self.op, pc: self.pc, gas: self.gas, stack: self.stack@ }
    }
}

/// The mathematical image of a raw-step window.
pub open spec fn window_view(w: Seq<GethExecStep>) -> Seq<GethExecStepV> {
    w.map_values(|g: GethExecStep| g@)
}

} // verus!
