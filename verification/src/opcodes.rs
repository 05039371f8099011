//! Instruction handlers: for each instruction kind, the fixed, ordered list
//! of bus operations its execution records. Each handler is specified by a
//! functional model over the trace context's mathematical image, so that what
//! it appends — and in which order — is pinned exactly.

use vstd::prelude::*;

use crate::Error;
use crate::circuit_input_builder::{CircuitInputStateRef, ExecState, ExecStep, ExecStepV, StateV};
use crate::evm::{GethExecStep, GethExecStepV, STACK_DEPTH, StackAddress, window_view};
use crate::operation::{CallContextField, CallContextOp, Operation, OperationRef, RW, StackOp, Target};
use crate::word::{Word, word_of_u64};

verus! {

/// Handler for the instruction that retrieves the current transaction's gas
/// price and pushes it onto the stack.
#[derive(Debug, Copy, Clone)]
pub struct GasPrice;

/// What one run of the gas-price handler does, as a function of the trace
/// context's image and the raw-step window's image: the context after the
/// run, and either the step records produced or the error returned. The
/// handler's body is verified against this model clause by clause.
pub open spec fn gas_price_spec(s: StateV, w: Seq<GethExecStepV>) -> (StateV, Result<
    Seq<ExecStepV>,
    Error,
>)
    recommends
        w.len() >= 1,
{
    if s.calls.len() == 0 {
        (s, Err(Error::InvalidGethExecStep))
    } else if w.len() < 2 {
        (s, Err(Error::InvalidGethExecTrace))
    } else if w[1].stack.len() == 0 {
        (s, Err(Error::StackUnderflow))
    } else {
        let call_id = s.calls.last().call_id;
        let cc_op = Operation {
            rwc: s.rwc,
            rw: RW::READ,
            op: CallContextOp {
                call_id,
                field: CallContextField::TxId,
                value: word_of_u64(s.tx_id),
            },
        };
        let st_op = Operation {
            rwc: (s.rwc + 1) as usize,
            rw: RW::WRITE,
            op: StackOp {
                call_id,
                address: StackAddress((STACK_DEPTH - w[0].stack.len() - 1) as usize),
                value: w[1].stack.last(),
            },
        };
        let step = ExecStepV {
            exec_state: ExecState::Op(w[0].op),
            pc: w[0].pc,
            gas_left: w[0].gas,
            rwc: s.rwc,
            bus_mapping_instance: seq![
                OperationRef(Target::CallContext, s.call_context_ops.len() as usize),
                OperationRef(Target::Stack, s.stack_ops.len() as usize),
            ],
        };
        (
            StateV {
                stack_ops: s.stack_ops.push(st_op),
                call_context_ops: s.call_context_ops.push(cc_op),
                last_rwc: (s.rwc + 1) as usize,
                rwc: (s.rwc + 2) as usize,
                ..s
            },
            Ok(seq![step]),
        )
    }
}

/// The step records a handler returned, as their mathematical images.
pub open spec fn result_view(r: Result<Vec<ExecStep>, Error>) -> Result<Seq<ExecStepV>, Error> {
    match r {
        Ok(v) => Ok(v@.map_values(|s: ExecStep| s@)),
        Err(e) => Err(e),
    }
}

impl GasPrice {
    /// Reconstruct the state accesses of one executed gas-price instruction.
    ///
    /// The window holds the instruction's own raw snapshot and, when the
    /// trace is complete, the following one, whose stack shows the pushed
    /// value at its new top. On success exactly two operations are appended,
    /// in this order: a context-field read of the executing transaction's
    /// ordinal, then a stack write of the observed value at the slot just
    /// above the prior resting top; the one step record returned references
    /// both, in append order. On any error nothing is appended.
    ///
    /// The caller must hand in a window with at least the instruction's own
    /// snapshot, whose stack has room for the push (an instruction that
    /// pushes cannot have executed from a full stack), and a context whose
    /// counter has room for two more operations.
    pub fn gen_associated_ops(
        state: &mut CircuitInputStateRef,
        geth_steps: &[GethExecStep],
    ) -> (r: Result<Vec<ExecStep>, Error>)
        requires
            old(state).wf(),
            old(state).rwc + 2 <= usize::MAX,
            geth_steps@.len() >= 1,
            geth_steps@[0].stack@.len() < STACK_DEPTH,
        ensures
            final(state).wf(),
            ({
                let sr = gas_price_spec(old(state)@, window_view(geth_steps@));
                &&& final(state)@ == sr.0
                &&& result_view(r) == sr.1
            }),
            r is Ok <==> {
                &&& old(state).calls@.len() > 0
                &&& geth_steps@.len() >= 2
                &&& geth_steps@[1].stack@.len() > 0
            },
            r is Ok ==> {
                let call_id = old(state).calls@.last().call_id;
                &&& final(state).container.call_context@
                    == old(state).container.call_context@.push(
                    Operation {
                        rwc: old(state).rwc,
                        rw: RW::READ,
                        op: CallContextOp {
                            call_id,
                            field: CallContextField::TxId,
                            value: word_of_u64(old(state).tx_ctx.id),
                        },
                    },
                )
                &&& final(state).container.stack@ == old(state).container.stack@.push(
                    Operation {
                        rwc: (old(state).rwc + 1) as usize,
                        rw: RW::WRITE,
                        op: StackOp {
                            call_id,
                            address: StackAddress(
                                (STACK_DEPTH - geth_steps@[0].stack@.len() - 1) as usize,
                            ),
                            value: geth_steps@[1].stack@.last(),
                        },
                    },
                )
            },
            r matches Ok(v) ==> {
                &&& v@.len() == 1
                &&& v@[0].exec_state == ExecState::Op(geth_steps@[0].op)
                &&& v@[0].bus_mapping_instance@ == seq![
                    OperationRef(
                        Target::CallContext,
                        old(state).container.call_context@.len() as usize,
                    ),
                    OperationRef(Target::Stack, old(state).container.stack@.len() as usize),
                ]
            },
            r is Err ==> final(state)@ == old(state)@,
    {
        let geth_step = &geth_steps[0];
        let mut exec_step = match state.new_step(geth_step) {
            Ok(s) => s,
            Err(e) => {
                return Err(e);
            },
        };
        // The pushed value is only visible after execution completes, in the
        // following snapshot's stack.
        if geth_steps.len() < 2 {
            return Err(Error::InvalidGethExecTrace);
        }
        let value = match geth_steps[1].stack.last() {
            Ok(v) => v,
            Err(e) => {
                return Err(e);
            },
        };
        let tx_id = state.tx_ctx.id();
        let call_id = match state.call() {
            Ok(c) => c.call_id,
            Err(e) => {
                return Err(e);
            },
        };

        // CallContext read of the TxId.
        match state.push_op(
            &mut exec_step,
            RW::READ,
            CallContextOp { call_id, field: CallContextField::TxId, value: Word::from_u64(tx_id) },
        ) {
            Ok(u) => u,
            Err(e) => {
                return Err(e);
            },
        };

        // Stack write of the gas-price value, one slot above the prior top.
        let pre_top = geth_step.stack.last_filled();
        match state.push_stack_op(&mut exec_step, RW::WRITE, StackAddress(pre_top.0 - 1), value) {
            Ok(u) => u,
            Err(e) => {
                return Err(e);
            },
        };

        let mut records: Vec<ExecStep> = Vec::new();
        records.push(exec_step);
        proof {
            assert(window_view(geth_steps@)[0] == geth_steps@[0]@);
            assert(window_view(geth_steps@)[1] == geth_steps@[1]@);
            let sr = gas_price_spec(old(state)@, window_view(geth_steps@));
            let m = records@.map_values(|s: ExecStep| s@);
            assert(m[0] == exec_step@);
            assert(exec_step@.bus_mapping_instance =~= sr.1->Ok_0[0].bus_mapping_instance);
            assert(exec_step@ =~~= sr.1->Ok_0[0]);
            assert(m =~~= sr.1->Ok_0);
            assert(state@ =~~= sr.0);
        }
        Ok(records)
    }
}

/// Determinism: from equal trace-context states and equal raw-step windows,
/// the gas-price handler produces equal states and equal step records — its
/// whole effect is a function of its input, with nothing left to chance.
pub proof fn lemma_gen_associated_ops_deterministic(
    s1: StateV,
    s2: StateV,
    w1: Seq<GethExecStepV>,
    w2: Seq<GethExecStepV>,
)
    requires
        s1 == s2,
        w1 == w2,
    ensures
        gas_price_spec(s1, w1) == gas_price_spec(s2, w2),
{
}

/// Re-running construction over the same window from the same state never
/// changes what is recorded for the instruction: both runs append the same
/// operations at the same positions, and within the occurrence the order is
/// fixed — the context-field read always carries the smaller counter and
/// stands first in the step record, the stack write second.
pub proof fn lemma_rerun_preserves_operation_order(s: StateV, w: Seq<GethExecStepV>)
    requires
        s.rwc + 1 <= usize::MAX,
    ensures
        gas_price_spec(s, w) == gas_price_spec(s, w),
        gas_price_spec(s, w).1 matches Ok(records) ==> {
            let s2 = gas_price_spec(s, w).0;
            &&& s2.call_context_ops.last().rwc < s2.stack_ops.last().rwc
            &&& records[0].bus_mapping_instance[0]
                == OperationRef(Target::CallContext, s.call_context_ops.len() as usize)
            &&& records[0].bus_mapping_instance[1]
                == OperationRef(Target::Stack, s.stack_ops.len() as usize)
        },
{
}

} // verus!
