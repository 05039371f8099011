//! Typed, directionally-tagged accesses to machine state, and the append-only
//! container that records them. Each operation is immutable once appended and
//! is referenced thereafter only by its container index.

use vstd::prelude::*;

use crate::Error;
use crate::evm::StackAddress;
use crate::word::Word;

verus! {

/// The direction of one recorded access.
#[allow(non_camel_case_types)]
#[derive(Clone, Copy, Debug, PartialEq, Eq, Hash, Structural)]
pub enum RW {
    /// The instruction read this piece of state.
    READ,
    /// The instruction wrote this piece of state.
    WRITE,
}

/// Which call-scoped context field a context operation touches.
#[derive(Clone, Copy, Debug, PartialEq, Eq, Hash, Structural)]
pub enum CallContextField {
    /// The 1-based ordinal of the transaction currently executing within
    /// its block.
    TxId,
}

/// One access to a call-scoped context field.
#[derive(Clone, Copy, Debug, PartialEq, Eq, Hash, Structural)]
pub struct CallContextOp {
    /// The identifier of the call frame whose context was accessed.
    pub call_id: u64,
    /// Which context field was accessed.
    pub field: CallContextField,
    /// The value observed or written.
    pub value: Word,
}

/// One access to a stack slot.
#[derive(Clone, Copy, Debug, PartialEq, Eq, Hash, Structural)]
pub struct StackOp {
    /// The identifier of the call frame whose stack was accessed.
    pub call_id: u64,
    /// The slot's address, as distance from the fixed top.
    pub address: StackAddress,
    /// The value observed or written.
    pub value: Word,
}

impl StackOp {
    /// A stack access with the given frame, slot and value.
    pub fn new(call_id: u64, address: StackAddress, value: Word) -> (op: StackOp)
        ensures
            op == (StackOp { call_id, address, value }),
    {
        StackOp { call_id, address, value }
    }
}

/// One recorded access: its global counter, its direction, and the typed
/// access itself. Immutable once appended to the container.
#[derive(Clone, Copy, Debug, PartialEq, Eq, Hash)]
pub struct Operation<T> {
    /// The access's position in the global read/write order.
    pub rwc: usize,
    /// Whether the access was a read or a write.
    pub rw: RW,
    /// The typed access.
    pub op: T,
}

impl<T> Operation<T> {
    /// The access's direction.
    pub fn rw(&self) -> (r: RW)
        ensures
            r == self.rw,
    {
        self.rw
    }

    /// The typed access.
    pub fn op(&self) -> (r: &T)
        ensures
            r == &self.op,
    {
        &self.op
    }

    /// The access's position in the global read/write order.
    pub fn rwc(&self) -> (r: usize)
        ensures
            r == self.rwc,
    {
        self.rwc
    }
}

/// Which state category a recorded operation belongs to.
#[derive(Clone, Copy, Debug, PartialEq, Eq, Hash, Structural)]
pub enum Target {
    /// A stack-slot access.
    Stack,
    /// A call-scoped context-field access.
    CallContext,
}

/// A handle to one recorded operation: its category and its index within
/// that category's log.
#[derive(Clone, Copy, Debug, PartialEq, Eq, Hash, Structural)]
pub struct OperationRef(pub Target, pub usize);

impl OperationRef {
    /// The operation's index within its category's log.
    pub fn as_usize(&self) -> (i: usize)
        ensures
            i == self.1,
    {
        self.1
    }
}

/// The append-only operation log, one ordered list per state category.
/// Insertions must carry strictly increasing counters; the container rejects
/// any other insertion rather than reorder history.
#[derive(Clone, Debug, PartialEq, Eq)]
pub struct OperationContainer {
    /// The recorded stack accesses, in insertion order.
    pub stack: Vec<Operation<StackOp>>,
    /// The recorded call-context accesses, in insertion order.
    pub call_context: Vec<Operation<CallContextOp>>,
    /// The counter of the most recently inserted operation; `0` before any
    /// insertion.
    pub last_rwc: usize,
}

impl OperationContainer {
    /// Every recorded counter is bounded by the last one handed in, and the
    /// counters within each category's log strictly increase: the log keeps
    /// insertion order and never holds a counter twice.
    pub open spec fn wf(self) -> bool {
        &&& forall|i: int| 0 <= i < self.stack@.len() ==> self.stack@[i].rwc <= self.last_rwc
        &&& forall|i: int| 0 <= i < self.call_context@.len()
            ==> self.call_context@[i].rwc <= self.last_rwc
        &&& forall|i: int, j: int| 0 <= i < j < self.stack@.len()
            ==> self.stack@[i].rwc < self.stack@[j].rwc
        &&& forall|i: int, j: int| 0 <= i < j < self.call_context@.len()
            ==> self.call_context@[i].rwc < self.call_context@[j].rwc
    }

    /// An empty log.
    pub fn new() -> (c: OperationContainer)
        ensures
            c.stack@ == Seq::<Operation<StackOp>>::empty(),
            c.call_context@ == Seq::<Operation<CallContextOp>>::empty(),
            c.last_rwc == 0,
            c.wf(),
    {
        OperationContainer { stack: Vec::new(), call_context: Vec::new(), last_rwc: 0 }
    }

    /// Append one stack access to the log, or reject it when its counter is
    /// not past every counter already recorded.
    pub fn insert_stack(&mut self, op: Operation<StackOp>) -> (r: Result<OperationRef, Error>)
        ensures
            op.rwc > old(self).last_rwc ==> {
                &&& r == Ok::<OperationRef, Error>(
                    OperationRef(Target::Stack, old(self).stack@.len() as usize),
                )
                &&& final(self).stack@ == old(self).stack@.push(op)
                &&& final(self).call_context@ == old(self).call_context@
                &&& final(self).last_rwc == op.rwc
            },
            op.rwc <= old(self).last_rwc ==> {
                &&& r == Err::<OperationRef, Error>(Error::ContainerInvariant)
                &&& *final(self) == *old(self)
            },
            old(self).wf() ==> final(self).wf(),
    {
        if op.rwc > self.last_rwc {
            let index = self.stack.len();
            self.last_rwc = op.rwc;
            self.stack.push(op);
            Ok(OperationRef(Target::Stack, index))
        } else {
            Err(Error::ContainerInvariant)
        }
    }

    /// Append one call-context access to the log, or reject it when its
    /// counter is not past every counter already recorded.
    pub fn insert_call_context(&mut self, op: Operation<CallContextOp>) -> (r: Result<
        OperationRef,
        Error,
    >)
        ensures
            op.rwc > old(self).last_rwc ==> {
                &&& r == Ok::<OperationRef, Error>(
                    OperationRef(Target::CallContext, old(self).call_context@.len() as usize),
                )
                &&& final(self).call_context@ == old(self).call_context@.push(op)
                &&& final(self).stack@ == old(self).stack@
                &&& final(self).last_rwc == op.rwc
            },
            op.rwc <= old(self).last_rwc ==> {
                &&& r == Err::<OperationRef, Error>(Error::ContainerInvariant)
                &&& *final(self) == *old(self)
            },
            old(self).wf() ==> final(self).wf(),
    {
        if op.rwc > self.last_rwc {
            let index = self.call_context.len();
            self.last_rwc = op.rwc;
            self.call_context.push(op);
            Ok(OperationRef(Target::CallContext, index))
        } else {
            Err(Error::ContainerInvariant)
        }
    }
}

} // verus!
