//! Replaying recorded operations against a machine-state snapshot, and the
//! guarantee that the log written for an instruction reproduces exactly the
//! values the raw trace shows after that instruction executed.

use vstd::prelude::*;

use crate::evm::{GethExecStepV, STACK_DEPTH, Stack};
use crate::opcodes::gas_price_spec;
use crate::operation::{CallContextField, CallContextOp, StackOp};
use crate::circuit_input_builder::StateV;
use crate::word::{Word, word_of_u64};

verus! {

/// Where a stack address points within a bottom-indexed snapshot: the slot
/// at distance `a` from the fixed top is the element at index `1023 - a`,
/// whatever the snapshot's depth.
pub open spec fn index_of_address(a: int) -> int {
    STACK_DEPTH - 1 - a
}

/// The stack snapshot after one recorded stack write is replayed against it:
/// the write lands one slot above the snapshot's resting top and pushes a
/// new value, or it lands on a filled slot and overwrites it.
pub open spec fn apply_stack_write(s: Seq<Word>, op: StackOp) -> Seq<Word>
    recommends
        index_of_address(op.address.0 as int) <= s.len(),
{
    let i = index_of_address(op.address.0 as int);
    if i == s.len() {
        s.push(op.value)
    } else {
        s.update(i, op.value)
    }
}

/// A recorded context-field read reproduces the ambient context: the value
/// it carries for the transaction-ordinal field is the ordinal itself.
pub open spec fn context_read_consistent(op: CallContextOp, tx_id: u64) -> bool {
    op.field == CallContextField::TxId ==> op.value == word_of_u64(tx_id)
}

/// Replay one recorded stack write against a stack snapshot.
pub fn replay_stack_write(stack: &mut Stack, op: &StackOp)
    requires
        op.address.0 < STACK_DEPTH,
        index_of_address(op.address.0 as int) <= old(stack)@.len(),
    ensures
        final(stack)@ == apply_stack_write(old(stack)@, *op),
{
    let i = STACK_DEPTH - 1 - op.address.0;
    if i == stack.0.len() {
        stack.0.push(op.value);
    } else {
        let slot = &mut stack.0[i];
        *slot = op.value;
        proof {
            assert(stack@ =~= apply_stack_write(old(stack)@, *op));
        }
    }
}

/// The raw window shows a single push: the following snapshot's stack is the
/// instruction's own stack with exactly one more value resting on top.
pub open spec fn window_shows_push(w: Seq<GethExecStepV>) -> bool {
    &&& w.len() >= 2
    &&& w[1].stack.len() == w[0].stack.len() + 1
    &&& w[1].stack.drop_last() == w[0].stack
}

/// Round-trip: replaying the operations the gas-price handler records
/// against the pre-instruction machine snapshot reproduces exactly the
/// stack and context values the raw trace shows after the instruction
/// executed — the replayed stack write rebuilds the following snapshot's
/// whole stack, and the context read carries the ambient ordinal.
pub proof fn lemma_replay_round_trip(s: StateV, w: Seq<GethExecStepV>)
    requires
        s.calls.len() > 0,
        window_shows_push(w),
        w[0].stack.len() < STACK_DEPTH,
    ensures
        gas_price_spec(s, w).1 is Ok,
        ({
            let s2 = gas_price_spec(s, w).0;
            &&& apply_stack_write(w[0].stack, s2.stack_ops.last().op) == w[1].stack
            &&& context_read_consistent(s2.call_context_ops.last().op, s.tx_id)
        }),
{
    let s2 = gas_price_spec(s, w).0;
    let op = s2.stack_ops.last().op;
    assert(index_of_address(op.address.0 as int) == w[0].stack.len());
    assert(w[1].stack.last() == op.value);
    assert(apply_stack_write(w[0].stack, op) =~= w[1].stack);
}

} // verus!
