//! Reconstructs, for one executed instruction, the ordered sequence of typed
//! "bus" read/write operations that record every piece of machine state the
//! instruction touched. The operation log and the per-instruction step records
//! built here are the witness material a proof circuit consumes later: an
//! operation that is missing, misordered, or carries the wrong value breaks
//! the circuit's guarantee for that instruction, so every handler states and
//! proves exactly which operations it appends, in which order, and with which
//! values.

use vstd::prelude::*;

pub mod circuit_input_builder;
pub mod evm;
pub mod opcodes;
pub mod operation;
pub mod replay;
pub mod word;

verus! {

/// Why handling an instruction failed. Any error aborts construction of the
/// enclosing block: nothing is retried and no partial result is kept.
#[derive(Clone, Copy, Debug, PartialEq, Eq, Structural)]
pub enum Error {
    /// The claimed step is inconsistent with the trace-context state:
    /// no call frame is currently executing (malformed trace).
    InvalidGethExecStep,
    /// The raw-step window is shorter than the instruction's handler needs
    /// (malformed trace).
    InvalidGethExecTrace,
    /// A stack value the handler must observe is absent: the stack snapshot
    /// is empty or under-filled (malformed trace).
    StackUnderflow,
    /// The operation log rejected an insertion whose counter is out of order
    /// (an internal invariant violation, not a recoverable condition).
    ContainerInvariant,
}

} // verus!
