//! The mutable trace context a handler works against: the transaction being
//! executed, the call-frame stack, the append-only operation log, and the
//! global read/write counter — plus the per-instruction step records the
//! handlers produce.

use vstd::prelude::*;

use crate::Error;
use crate::evm::{GethExecStep, OpcodeId, StackAddress};
use crate::operation::{
    CallContextOp, Operation, OperationContainer, OperationRef, RW, StackOp, Target,
};
use crate::word::Word;

verus! {

/// The transaction currently being replayed.
#[derive(Clone, Copy, Debug, PartialEq, Eq, Structural)]
pub struct TransactionContext {
    /// The transaction's 1-based ordinal within its block.
    pub id: u64,
}

impl TransactionContext {
    /// A context for the transaction with the given ordinal.
    pub fn new(id: u64) -> (t: TransactionContext)
        ensures
            t.id == id,
    {
        TransactionContext { id }
    }

    /// The transaction's 1-based ordinal within its block.
    pub fn id(&self) -> (i: u64)
        ensures
            i == self.id,
    {
        self.id
    }
}

/// One call frame. Handlers query it, never mutate it.
#[derive(Clone, Copy, Debug, PartialEq, Eq, Structural)]
pub struct Call {
    /// The frame's identifier.
    pub call_id: u64,
}

/// Which instruction or internal state a step record stands for.
#[derive(Clone, Copy, Debug, PartialEq, Eq, Structural)]
pub enum ExecState {
    /// The step executed the given instruction.
    Op(OpcodeId),
}

/// The record of one executed instruction: its identity, its bookkeeping
/// values, and handles to the operations produced while executing it, in
/// the order they were appended.
#[derive(Clone, Debug, PartialEq, Eq)]
pub struct ExecStep {
    /// Which instruction this step executed.
    pub exec_state: ExecState,
    /// The program counter at this step.
    pub pc: u64,
    /// The gas remaining before this step executed.
    pub gas_left: u64,
    /// The global read/write counter when this step began.
    pub rwc: usize,
    /// Handles to the operations this step produced, in append order.
    pub bus_mapping_instance: Vec<OperationRef>,
}

/// The mathematical image of one step record.
#[verifier::ext_equal]
pub struct ExecStepV {
    /// Which instruction this step executed.
    pub exec_state: ExecState,
    /// The program counter at this step.
    pub pc: u64,
    /// The gas remaining before this step executed.
    pub gas_left: u64,
    /// The global read/write counter when this step began.
    pub rwc: usize,
    /// Handles to the operations this step produced, in append order.
    pub bus_mapping_instance: Seq<OperationRef>,
}

impl View for ExecStep {
    type V = ExecStepV;

    open spec fn view(&self) -> ExecStepV {
        ExecStepV {
            exec_state: self.exec_state,
            pc: self.pc,
            gas_left: self.gas_left,
            rwc: self.rwc,
            bus_mapping_instance: self.bus_mapping_instance@,
        }
    }
}

/// The trace context: exclusively owned while one handler runs, mutated only
/// by appending operations and advancing the counter.
#[derive(Clone, Debug, PartialEq, Eq)]
pub struct CircuitInputStateRef {
    /// The transaction currently executing.
    pub tx_ctx: TransactionContext,
    /// The call-frame stack; the current frame is the last element.
    pub calls: Vec<Call>,
    /// The append-only operation log.
    pub container: OperationContainer,
    /// The counter the next recorded operation receives.
    pub rwc: usize,
}

/// The mathematical image of the trace context.
#[verifier::ext_equal]
pub struct StateV {
    /// The executing transaction's 1-based ordinal.
    pub tx_id: u64,
    /// The call-frame stack; the current frame is the last element.
    pub calls: Seq<Call>,
    /// The recorded stack accesses, in insertion order.
    pub stack_ops: Seq<Operation<StackOp>>,
    /// The recorded call-context accesses, in insertion order.
    pub call_context_ops: Seq<Operation<CallContextOp>>,
    /// The counter of the most recently recorded operation.
    pub last_rwc: usize,
    /// The counter the next recorded operation receives.
    pub rwc: usize,
}

impl View for CircuitInputStateRef {
    type V = StateV;

    open spec fn view(&self) -> StateV {
        StateV {
            tx_id: self.tx_ctx.id,
            calls: self.calls@,
            stack_ops: self.container.stack@,
            call_context_ops: self.container.call_context@,
            last_rwc: self.container.last_rwc,
            rwc: self.rwc,
        }
    }
}

impl CircuitInputStateRef {
    /// The operation log is well formed and the next counter is past
    /// everything recorded, so the next insertion cannot be rejected.
    pub open spec fn wf(self) -> bool {
        &&& self.container.wf()
        &&& self.rwc > self.container.last_rwc
    }

    /// A fresh trace context for the given transaction and call stack, with
    /// an empty operation log.
    pub fn new(tx_ctx: TransactionContext, calls: Vec<Call>) -> (s: CircuitInputStateRef)
        ensures
            s.tx_ctx == tx_ctx,
            s.calls@ == calls@,
            s.container.stack@ == Seq::<Operation<StackOp>>::empty(),
            s.container.call_context@ == Seq::<Operation<CallContextOp>>::empty(),
            s.rwc == 1,
            s.wf(),
    {
        CircuitInputStateRef { tx_ctx, calls, container: OperationContainer::new(), rwc: 1 }
    }

    /// The current call frame, or a malformed-trace error when no frame is
    /// executing.
    pub fn call(&self) -> (r: Result<&Call, Error>)
        ensures
            self.calls@.len() > 0 ==> (r matches Ok(c) && *c == self.calls@.last()),
            self.calls@.len() == 0 ==> (r matches Err(e) && e == Error::InvalidGethExecStep),
    {
        let n = self.calls.len();
        if n > 0 {
            Ok(&self.calls[n - 1])
        } else {
            Err(Error::InvalidGethExecStep)
        }
    }

    /// A fresh step record for the given raw snapshot, carrying no operation
    /// handles yet; fails when no call frame is executing.
    pub fn new_step(&self, geth_step: &GethExecStep) -> (r: Result<ExecStep, Error>)
        ensures
            self.calls@.len() > 0 ==> (r matches Ok(step) && step@ == (ExecStepV {
                exec_state: ExecState::Op(geth_step.op),
                pc: geth_step.pc,
                gas_left: geth_step.gas,
                rwc: self.rwc,
                bus_mapping_instance: Seq::<OperationRef>::empty(),
            })),
            self.calls@.len() == 0 ==> (r matches Err(e) && e == Error::InvalidGethExecStep),
    {
        match self.call() {
            Ok(_) => Ok(
                ExecStep {
                    exec_state: ExecState::Op(geth_step.op),
                    pc: geth_step.pc,
                    gas_left: geth_step.gas,
                    rwc: self.rwc,
                    bus_mapping_instance: Vec::new(),
                },
            ),
            Err(e) => Err(e),
        }
    }

    /// Record one call-context access: append it to the log with the next
    /// counter and hand its reference to the step record. From a well-formed
    /// context the log cannot reject the insertion.
    pub fn push_op(&mut self, step: &mut ExecStep, rw: RW, op: CallContextOp) -> (r: Result<
        (),
        Error,
    >)
        requires
            old(self).wf(),
            old(self).rwc < usize::MAX,
        ensures
            final(self).wf(),
            r == Ok::<(), Error>(()),
            final(self).container.call_context@ == old(self).container.call_context@.push(
                Operation { rwc: old(self).rwc, rw, op },
            ),
            final(self).container.stack@ == old(self).container.stack@,
            final(self).container.last_rwc == old(self).rwc,
            final(self).rwc == old(self).rwc + 1,
            final(self).tx_ctx == old(self).tx_ctx,
            final(self).calls@ == old(self).calls@,
            final(step)@ == (ExecStepV {
                bus_mapping_instance: old(step).bus_mapping_instance@.push(
                    OperationRef(
                        Target::CallContext,
                        old(self).container.call_context@.len() as usize,
                    ),
                ),
                ..old(step)@
            }),
    {
        let operation = Operation { rwc: self.rwc, rw, op };
        self.rwc = self.rwc + 1;
        match self.container.insert_call_context(operation) {
            Ok(oref) => {
                step.bus_mapping_instance.push(oref);
                Ok(())
            },
            Err(e) => Err(e),
        }
    }

    /// Record one stack access at the given address: append it to the log
    /// with the next counter, tagged with the current call frame, and hand
    /// its reference to the step record. Fails when no call frame is
    /// executing; from a well-formed context the log itself cannot reject
    /// the insertion.
    pub fn push_stack_op(
        &mut self,
        step: &mut ExecStep,
        rw: RW,
        address: StackAddress,
        value: Word,
    ) -> (r: Result<(), Error>)
        requires
            old(self).wf(),
            old(self).rwc < usize::MAX,
        ensures
            final(self).wf(),
            old(self).calls@.len() == 0 ==> {
                &&& r == Err::<(), Error>(Error::InvalidGethExecStep)
                &&& *final(self) == *old(self)
                &&& *final(step) == *old(step)
            },
            old(self).calls@.len() > 0 ==> {
                &&& r == Ok::<(), Error>(())
                &&& final(self).container.stack@ == old(self).container.stack@.push(
                    Operation {
                        rwc: old(self).rwc,
                        rw,
                        op: StackOp {
                            call_id: old(self).calls@.last().call_id,
                            address,
                            value,
                        },
                    },
                )
                &&& final(self).container.call_context@ == old(self).container.call_context@
                &&& final(self).container.last_rwc == old(self).rwc
                &&& final(self).rwc == old(self).rwc + 1
                &&& final(self).tx_ctx == old(self).tx_ctx
                &&& final(self).calls@ == old(self).calls@
                &&& final(step)@ == (ExecStepV {
                    bus_mapping_instance: old(step).bus_mapping_instance@.push(
                        OperationRef(Target::Stack, old(self).container.stack@.len() as usize),
                    ),
                    ..old(step)@
                })
            },
    {
        let call_id = match self.call() {
            Ok(c) => c.call_id,
            Err(e) => {
                return Err(e);
            },
        };
        let operation = Operation { rwc: self.rwc, rw, op: StackOp { call_id, address, value } };
        self.rwc = self.rwc + 1;
        match self.container.insert_stack(operation) {
            Ok(oref) => {
                step.bus_mapping_instance.push(oref);
                Ok(())
            },
            Err(e) => Err(e),
        }
    }
}

} // verus!
